//! The shared-secret signing scheme: every key currently in the parameter
//! set except `api_sig` and `format` is taken, the keys are sorted
//! lexicographically, each key is concatenated immediately followed by its
//! value, the shared secret is appended, and the MD5 digest of the result,
//! rendered as lowercase hexadecimal, is the signature.
//!
//! MD5 is a fixed requirement of the remote service's wire protocol; it must
//! be reproduced exactly and may not be replaced by a stronger hash.

use vstd::prelude::*;
use vstd::relations::{sorted_by, total_ordering};
use vstd::seq_lib::{lemma_sorted_unique, to_multiset_build, to_multiset_insert};

use crate::lexical::{lex_le, lex_leq, lemma_lex_le_total, lemma_lex_le_trans,
    lemma_lex_leq_total_ordering, str_lex_le};
use crate::params::{assoc_map, lemma_assoc_map_dom, lemma_assoc_map_index, pairs_view,
    unique_keys, ParameterSet};

verus! {

/// The lowercase hexadecimal MD5 digest of the UTF-8 encoding of a string;
/// a fixed function of the characters alone.
pub uninterp spec fn md5_hex_of(input: Seq<char>) -> Seq<char>;

/// Relies on md5::compute over the UTF-8 bytes of the input, rendered through
/// the digest's lowercase-hex formatter: sixteen bytes, two digits each, so
/// thirty-two characters; the digest is a function of the input bytes alone.
#[verifier::external_body]
fn md5_hex(input: &str) -> (r: String)
    ensures
        r@ == md5_hex_of(input@),
        r@.len() == 32,
{
    let digest = md5::compute(input.as_bytes());
    format!("{:x}", digest)
}

/// A key takes part in the signature.
pub open spec fn is_signed_key(k: Seq<char>) -> bool {
    k != "api_sig"@ && k != "format"@
}

/// The entries a signature covers, as a predicate on pairs.
pub open spec fn signed_pred() -> spec_fn((Seq<char>, Seq<char>)) -> bool {
    |p: (Seq<char>, Seq<char>)| is_signed_key(p.0)
}

/// Keys appear in lexicographic order.
pub open spec fn sorted_by_keys(ps: Seq<(Seq<char>, Seq<char>)>) -> bool {
    forall|a: int, b: int| 0 <= a < b < ps.len() ==> lex_le(#[trigger] ps[a].0, #[trigger] ps[b].0)
}

/// The keys a signature is computed over: everything but `api_sig` and
/// `format`.
pub open spec fn relevant_dom(m: Map<Seq<char>, Seq<char>>) -> Set<Seq<char>> {
    m.dom().remove("api_sig"@).remove("format"@)
}

/// The signed keys in lexicographic order.
pub open spec fn sig_key_order(m: Map<Seq<char>, Seq<char>>) -> Seq<Seq<char>> {
    relevant_dom(m).to_sorted_seq(lex_leq())
}

/// Each key immediately followed by its value, over the given key order.
pub open spec fn concat_keyed(m: Map<Seq<char>, Seq<char>>, ks: Seq<Seq<char>>) -> Seq<char>
    decreases ks.len(),
{
    if ks.len() == 0 {
        Seq::empty()
    } else {
        concat_keyed(m, ks.drop_last()) + ks.last() + m[ks.last()]
    }
}

/// The exact string the digest is computed over.
pub open spec fn sig_base(m: Map<Seq<char>, Seq<char>>, secret: Seq<char>) -> Seq<char> {
    concat_keyed(m, sig_key_order(m)) + secret
}

/// The signature of a parameter mapping under a shared secret.
pub open spec fn signature_of(m: Map<Seq<char>, Seq<char>>, secret: Seq<char>) -> Seq<char> {
    md5_hex_of(sig_base(m, secret))
}

/// The concatenation reads only the values of the listed keys.
proof fn lemma_concat_keyed_agree(
    m1: Map<Seq<char>, Seq<char>>,
    m2: Map<Seq<char>, Seq<char>>,
    ks: Seq<Seq<char>>,
)
    requires
        forall|i: int| 0 <= i < ks.len() ==> m1[#[trigger] ks[i]] == m2[ks[i]],
    ensures
        concat_keyed(m1, ks) == concat_keyed(m2, ks),
    decreases ks.len(),
{
    if ks.len() > 0 {
        lemma_concat_keyed_agree(m1, m2, ks.drop_last());
        assert(ks[ks.len() - 1] == ks.last());
    }
}

/// A set's sequence form repeats no element.
proof fn lemma_to_seq_no_duplicates(s: Set<Seq<char>>)
    requires
        s.finite(),
    ensures
        s.to_seq().no_duplicates(),
        forall|k: Seq<char>| #[trigger] s.to_seq().contains(k) <==> s.contains(k),
    decreases s.len(),
{
    broadcast use vstd::set_lib::group_set_lib_default;

    if s.len() == 0 {
        assert(s.to_seq() =~= Seq::<Seq<char>>::empty());
    } else {
        let x = s.choose();
        lemma_to_seq_no_duplicates(s.remove(x));
        let rest = s.remove(x).to_seq();
        assert(s.to_seq() =~= seq![x] + rest);
        assert forall|k: Seq<char>| #[trigger] s.to_seq().contains(k) implies s.contains(k) by {
            if k != x {
                let i = choose|i: int| 0 <= i < s.to_seq().len() && s.to_seq()[i] == k;
                assert(rest[i - 1] == k);
                assert(rest.contains(k));
            }
        }
        assert forall|k: Seq<char>| s.contains(k) implies #[trigger] s.to_seq().contains(k) by {
            if k == x {
                assert(s.to_seq()[0] == k);
            } else {
                assert(s.remove(x).contains(k));
                assert(rest.contains(k));
                let i = choose|i: int| 0 <= i < rest.len() && rest[i] == k;
                assert(s.to_seq()[i + 1] == k);
            }
        }
        assert forall|i: int, j: int|
            0 <= i < j < s.to_seq().len() implies s.to_seq()[i] != s.to_seq()[j] by {
            if i == 0 {
                assert(s.to_seq()[j] == rest[j - 1]);
                assert(rest.contains(rest[j - 1]));
                assert(s.remove(x).contains(s.to_seq()[j]));
            } else {
                assert(s.to_seq()[i] == rest[i - 1]);
                assert(s.to_seq()[j] == rest[j - 1]);
            }
        }
    }
}

/// Two duplicate-free sequences over the same element set carry the same
/// multiset.
proof fn lemma_no_dup_same_set_same_multiset(a: Seq<Seq<char>>, b: Seq<Seq<char>>)
    requires
        a.no_duplicates(),
        b.no_duplicates(),
        forall|k: Seq<char>| #[trigger] a.contains(k) <==> b.contains(k),
    ensures
        a.to_multiset() == b.to_multiset(),
{
    broadcast use vstd::seq_lib::group_to_multiset_ensures;

    a.lemma_multiset_has_no_duplicates();
    b.lemma_multiset_has_no_duplicates();
    assert forall|k: Seq<char>| a.to_multiset().count(k) == b.to_multiset().count(k) by {
        if a.contains(k) {
            assert(a.to_multiset().contains(k));
            assert(b.to_multiset().contains(k));
        } else {
            assert(a.to_multiset().count(k) == 0);
            assert(b.to_multiset().count(k) == 0);
        }
    }
    assert(a.to_multiset() =~= b.to_multiset());
}

/// A sorted, duplicate-free key sequence covering exactly the signed keys is
/// the canonical key order.
proof fn lemma_key_order_unique(m: Map<Seq<char>, Seq<char>>, ks: Seq<Seq<char>>)
    requires
        m.dom().finite(),
        sorted_by(ks, lex_leq()),
        ks.no_duplicates(),
        forall|k: Seq<char>| #[trigger] ks.contains(k) <==> relevant_dom(m).contains(k),
    ensures
        ks == sig_key_order(m),
{
    lemma_lex_leq_total_ordering();
    let rd = relevant_dom(m);
    assert(rd.finite()) by {
        broadcast use vstd::set::group_set_axioms;

    }
    let base = rd.to_seq();
    lemma_to_seq_no_duplicates(rd);
    base.lemma_sort_by_ensures(lex_leq());
    let canon = sig_key_order(m);
    // the canonical order has the same elements as the set's sequence form
    broadcast use vstd::seq_lib::group_to_multiset_ensures;

    assert(base.to_multiset() == canon.to_multiset());
    assert forall|k: Seq<char>| #[trigger] canon.contains(k) <==> rd.contains(k) by {
        assert(canon.contains(k) <==> canon.to_multiset().count(k) > 0);
        assert(base.contains(k) <==> base.to_multiset().count(k) > 0);
    }
    base.lemma_multiset_has_no_duplicates();
    canon.lemma_multiset_has_no_duplicates_conv();
    lemma_no_dup_same_set_same_multiset(ks, canon);
    lemma_sorted_unique(ks, canon, lex_leq());
}

/// Signing is deterministic and blind to insertion order: the signature is a
/// function of the parameter mapping and the secret alone, so signing the
/// same mapping twice, or a mapping assembled in any other insertion order,
/// yields the identical signature.
pub proof fn lemma_signature_deterministic(p1: ParameterSet, p2: ParameterSet, secret: Seq<char>)
    requires
        p1@ == p2@,
    ensures
        signature_of(p1@, secret) == signature_of(p2@, secret),
{
}

/// The signature neither depends on nor includes the `api_sig` and `format`
/// keys: adding or removing either of them leaves the signature unchanged.
pub proof fn lemma_signature_excludes(
    m: Map<Seq<char>, Seq<char>>,
    k: Seq<char>,
    v: Seq<char>,
    secret: Seq<char>,
)
    requires
        m.dom().finite(),
        k == "api_sig"@ || k == "format"@,
    ensures
        signature_of(m.insert(k, v), secret) == signature_of(m, secret),
        signature_of(m.remove(k), secret) == signature_of(m, secret),
{
    let mi = m.insert(k, v);
    let mr = m.remove(k);
    assert(relevant_dom(mi) =~= relevant_dom(m));
    assert(relevant_dom(mr) =~= relevant_dom(m));
    assert(sig_key_order(mi) == sig_key_order(m));
    assert(sig_key_order(mr) == sig_key_order(m));
    let ks = sig_key_order(m);
    assert forall|i: int| 0 <= i < ks.len() implies mi[#[trigger] ks[i]] == m[ks[i]]
        && mr[ks[i]] == m[ks[i]] by {
        assert(relevant_dom(m).to_seq().sort_by(lex_leq()).contains(ks[i]));
        lemma_lex_leq_total_ordering();
        relevant_dom(m).to_seq().lemma_sort_by_ensures(lex_leq());
        assert(relevant_dom(m).to_seq().contains(ks[i])) by {
            broadcast use vstd::seq_lib::group_to_multiset_ensures;

            assert(ks.contains(ks[i]));
            assert(ks.to_multiset().count(ks[i]) > 0);
        }
        assert(relevant_dom(m).finite()) by {
            broadcast use vstd::set::group_set_axioms;

        }
        lemma_to_seq_no_duplicates(relevant_dom(m));
        assert(relevant_dom(m).contains(ks[i]));
    }
    lemma_concat_keyed_agree(mi, m, ks);
    lemma_concat_keyed_agree(mr, m, ks);
}

/// The mapping of an association list with finitely many entries is finite.
proof fn lemma_assoc_dom_finite(ps: Seq<(Seq<char>, Seq<char>)>)
    ensures
        assoc_map(ps).dom().finite(),
    decreases ps.len(),
{
    if ps.len() > 0 {
        lemma_assoc_dom_finite(ps.drop_last());
    }
}

/// Filtering a duplicate-free sequence yields a duplicate-free sequence.
proof fn lemma_filter_no_duplicates<A>(s: Seq<A>, p: spec_fn(A) -> bool)
    requires
        s.no_duplicates(),
    ensures
        s.filter(p).no_duplicates(),
    decreases s.len(),
{
    reveal(Seq::filter);
    if s.len() > 0 {
        let rest = s.drop_last();
        assert(rest.no_duplicates());
        lemma_filter_no_duplicates(rest, p);
        if p(s.last()) {
            let f = rest.filter(p);
            assert(!f.contains(s.last())) by {
                if f.contains(s.last()) {
                    rest.lemma_filter_contains_rev(p, s.last());
                    let j = choose|j: int| 0 <= j < rest.len() && rest[j] == s.last();
                    assert(s[j] == s[s.len() - 1]);
                }
            }
            assert forall|a: int, b: int|
                0 <= a < b < f.push(s.last()).len() implies f.push(s.last())[a] != f.push(
                s.last(),
            )[b] by {
                if b < f.len() {
                    assert(f.push(s.last())[a] == f[a]);
                    assert(f.push(s.last())[b] == f[b]);
                } else {
                    assert(f.push(s.last())[a] == f[a]);
                    assert(f.contains(f[a]));
                }
            }
        }
    }
}

/// How the filtered prefix grows when one more entry is taken in.
proof fn lemma_filter_take_step(entries: Seq<(Seq<char>, Seq<char>)>, i: int)
    requires
        0 <= i < entries.len(),
    ensures
        is_signed_key(entries[i].0) ==> entries.take(i + 1).filter(signed_pred())
            == entries.take(i).filter(signed_pred()).push(entries[i]),
        !is_signed_key(entries[i].0) ==> entries.take(i + 1).filter(signed_pred())
            == entries.take(i).filter(signed_pred()),
{
    let e = entries[i];
    let sp = signed_pred();
    assert(entries.take(i + 1) =~= entries.take(i) + seq![e]);
    Seq::filter_distributes_over_add(entries.take(i), seq![e], sp);
    reveal_with_fuel(Seq::filter, 3);
    assert(seq![e].drop_last() =~= Seq::<(Seq<char>, Seq<char>)>::empty());
    if is_signed_key(e.0) {
        assert(seq![e].filter(sp) =~= seq![e]);
        assert(entries.take(i).filter(sp) + seq![e] =~= entries.take(i).filter(sp).push(e));
    } else {
        assert(seq![e].filter(sp) =~= Seq::<(Seq<char>, Seq<char>)>::empty());
        assert(entries.take(i).filter(sp) + seq![e].filter(sp) =~= entries.take(i).filter(sp));
    }
}

/// Where each element of a list stands after an insertion.
proof fn lemma_insert_index_map(
    sv: Seq<(Seq<char>, Seq<char>)>,
    pos: int,
    e: (Seq<char>, Seq<char>),
)
    requires
        0 <= pos <= sv.len(),
    ensures
        sv.insert(pos, e).len() == sv.len() + 1,
        forall|l: int| 0 <= l < pos ==> #[trigger] sv.insert(pos, e)[l] == sv[l],
        sv.insert(pos, e)[pos] == e,
        forall|l: int| pos < l < sv.len() + 1 ==> #[trigger] sv.insert(pos, e)[l] == sv[l - 1],
{
}

/// One step of the gathering loop: inserting the signed entry at position
/// `i` of the source at its sorted place keeps the list sorted and its
/// contents equal to the signed part of the prefix taken so far.
proof fn lemma_gather_step(
    entries: Seq<(Seq<char>, Seq<char>)>,
    i: int,
    sv: Seq<(Seq<char>, Seq<char>)>,
    sw: Seq<(Seq<char>, Seq<char>)>,
    pos: int,
    e: (Seq<char>, Seq<char>),
)
    requires
        0 <= i < entries.len(),
        entries[i] == e,
        is_signed_key(e.0),
        0 <= pos <= sv.len(),
        sw == sv.insert(pos, e),
        sorted_by_keys(sv),
        sv.to_multiset() == entries.take(i).filter(signed_pred()).to_multiset(),
        forall|a: int| 0 <= a < pos ==> lex_le(#[trigger] sv[a].0, e.0),
        pos < sv.len() ==> lex_le(e.0, sv[pos].0),
    ensures
        sorted_by_keys(sw),
        sw.to_multiset() == entries.take(i + 1).filter(signed_pred()).to_multiset(),
{
    lemma_insert_index_map(sv, pos, e);
    lemma_filter_take_step(entries, i);
    to_multiset_insert(sv, pos, e);
    to_multiset_build(entries.take(i).filter(signed_pred()), e);
    assert forall|a: int, b: int| 0 <= a < b < sw.len() implies lex_le(
        #[trigger] sw[a].0,
        #[trigger] sw[b].0,
    ) by {
        let a0 = if a < pos { a } else { a - 1 };
        let b0 = if b < pos { b } else { b - 1 };
        if a == pos {
            assert(sw[b] == sv[b0]);
            if b0 > pos {
                lemma_lex_le_trans(e.0, sv[pos].0, sv[b0].0);
            }
        } else if b == pos {
            assert(sw[a] == sv[a0]);
        } else {
            assert(sw[a] == sv[a0]);
            assert(sw[b] == sv[b0]);
        }
    }
}

/// After the gathering loop, the sorted pair list realizes the canonical key
/// order of the mapping, with the mapping's values beside the keys.
#[verifier::rlimit(100)]
proof fn lemma_sorted_matches_canonical(
    m: Map<Seq<char>, Seq<char>>,
    entries: Seq<(Seq<char>, Seq<char>)>,
    sv: Seq<(Seq<char>, Seq<char>)>,
)
    requires
        m == assoc_map(entries),
        unique_keys(entries),
        sorted_by_keys(sv),
        sv.to_multiset() == entries.filter(signed_pred()).to_multiset(),
    ensures
        sig_key_order(m).len() == sv.len(),
        forall|l: int| 0 <= l < sv.len() ==> #[trigger] sv[l].0 == sig_key_order(m)[l]
            && m.dom().contains(sv[l].0) && sv[l].1 == m[sv[l].0],
{
    broadcast use vstd::seq_lib::group_to_multiset_ensures;

    lemma_assoc_map_dom(entries);
    lemma_assoc_dom_finite(entries);
    let sp = signed_pred();
    let f = entries.filter(sp);
    assert(entries.no_duplicates()) by {
        assert forall|a: int, b: int|
            0 <= a < b < entries.len() implies entries[a] != entries[b] by {
            assert(entries[a].0 != entries[b].0);
        }
    }
    lemma_filter_no_duplicates(entries, sp);
    f.lemma_multiset_has_no_duplicates();
    sv.lemma_multiset_has_no_duplicates_conv();
    // each gathered entry is a signed entry of the source
    assert forall|l: int| 0 <= l < sv.len() implies m.dom().contains(#[trigger] sv[l].0)
        && sv[l].1 == m[sv[l].0] && is_signed_key(sv[l].0) by {
        assert(sv.contains(sv[l]));
        assert(sv.to_multiset().count(sv[l]) > 0);
        assert(f.contains(sv[l]));
        let fi = choose|fi: int| 0 <= fi < f.len() && f[fi] == sv[l];
        entries.lemma_filter_pred(sp, fi);
        entries.lemma_filter_contains_rev(sp, sv[l]);
        let j = choose|j: int| 0 <= j < entries.len() && entries[j] == sv[l];
        lemma_assoc_map_index(entries, j);
    }
    // keys of distinct gathered entries differ
    assert forall|a: int, b: int| 0 <= a < b < sv.len() implies sv[a].0 != sv[b].0 by {
        assert(sv[a] != sv[b]);
        if sv[a].0 == sv[b].0 {
            assert(sv.contains(sv[a]));
            assert(sv.to_multiset().count(sv[a]) > 0);
            assert(f.contains(sv[a]));
            entries.lemma_filter_contains_rev(sp, sv[a]);
            assert(sv.contains(sv[b]));
            assert(sv.to_multiset().count(sv[b]) > 0);
            assert(f.contains(sv[b]));
            entries.lemma_filter_contains_rev(sp, sv[b]);
            let ja = choose|ja: int| 0 <= ja < entries.len() && entries[ja] == sv[a];
            let jb = choose|jb: int| 0 <= jb < entries.len() && entries[jb] == sv[b];
            assert(ja != jb);
            assert(entries[ja].0 != entries[jb].0);
        }
    }
    let keys = sv.map_values(|p: (Seq<char>, Seq<char>)| p.0);
    assert(keys.no_duplicates());
    assert(sorted_by(keys, lex_leq()));
    assert forall|k: Seq<char>| #[trigger] keys.contains(k) implies relevant_dom(m).contains(
        k,
    ) by {
        let l = choose|l: int| 0 <= l < keys.len() && keys[l] == k;
        assert(sv[l].0 == k);
    }
    assert forall|k: Seq<char>| relevant_dom(m).contains(k) implies #[trigger] keys.contains(
        k,
    ) by {
        assert(m.dom().contains(k));
        let j = choose|j: int| 0 <= j < entries.len() && entries[j].0 == k;
        assert(sp(entries[j]));
        entries.lemma_filter_contains(sp, j);
        assert(f.contains(entries[j]));
        assert(f.to_multiset().count(entries[j]) > 0);
        assert(sv.contains(entries[j]));
        let l = choose|l: int| 0 <= l < sv.len() && sv[l] == entries[j];
        assert(keys[l] == k);
    }
    lemma_key_order_unique(m, keys);
}

/// The position `key` belongs at in a key-sorted pair list.
fn sorted_position(sorted: &Vec<(String, String)>, key: &String) -> (pos: usize)
    requires
        sorted_by_keys(pairs_view(sorted@)),
    ensures
        pos <= sorted@.len(),
        forall|a: int| 0 <= a < pos ==> lex_le(#[trigger] pairs_view(sorted@)[a].0, key@),
        pos < sorted@.len() ==> lex_le(key@, pairs_view(sorted@)[pos as int].0),
{
    let n = sorted.len();
    let mut pos: usize = 0;
    while pos < n
        invariant
            n == sorted@.len(),
            pos <= n,
            forall|a: int| 0 <= a < pos ==> lex_le(#[trigger] pairs_view(sorted@)[a].0, key@),
        decreases n - pos,
    {
        if str_lex_le(key.as_str(), sorted[pos].0.as_str()) {
            return pos;
        }
        proof {
            lemma_lex_le_total(pairs_view(sorted@)[pos as int].0, key@);
        }
        pos = pos + 1;
    }
    pos
}

/// Compute the signature of a parameter set under the shared secret.
#[verifier::rlimit(100)]
pub fn sign_parameter_set(params: &ParameterSet, api_secret: &str) -> (r: String)
    requires
        params.wf(),
    ensures
        r@ == signature_of(params@, api_secret@),
        r@.len() == 32,
{
    let ghost m = params@;
    proof {
        lemma_assoc_map_dom(params.entries());
        lemma_assoc_dom_finite(params.entries());
    }
    // Gather every signed entry, inserting each at its sorted position.
    let mut sorted: Vec<(String, String)> = Vec::new();
    proof {
        assert(pairs_view(sorted@) =~= Seq::<(Seq<char>, Seq<char>)>::empty());
        assert(params.entries().take(0) =~= Seq::<(Seq<char>, Seq<char>)>::empty());
        reveal(Seq::filter);
    }
    let n = params.len();
    let mut i: usize = 0;
    while i < n
        invariant
            params.wf(),
            m == params@,
            n == params.entries().len(),
            i <= n,
            sorted_by_keys(pairs_view(sorted@)),
            pairs_view(sorted@).to_multiset() == params.entries().take(i as int).filter(
                signed_pred(),
            ).to_multiset(),
        decreases n - i,
    {
        let ghost sv0 = pairs_view(sorted@);
        let ghost e = params.entries()[i as int];
        let key = params.key_at(i);
        let keep = !(str_eq(key.as_str(), "api_sig") || str_eq(key.as_str(), "format"));
        if keep {
            let value = params.value_at(i);
            let entry = (key.clone(), value.clone());
            let pos = sorted_position(&sorted, &entry.0);
            sorted.insert(pos, entry);
            proof {
                assert(pairs_view(sorted@) =~= sv0.insert(pos as int, e));
                lemma_gather_step(
                    params.entries(),
                    i as int,
                    sv0,
                    pairs_view(sorted@),
                    pos as int,
                    e,
                );
            }
        } else {
            proof {
                assert(!is_signed_key(e.0));
                lemma_filter_take_step(params.entries(), i as int);
            }
        }
        i = i + 1;
    }
    // Concatenate key-value pairs in order, then the secret.
    proof {
        assert(params.entries().take(n as int) =~= params.entries());
        lemma_sorted_matches_canonical(m, params.entries(), pairs_view(sorted@));
    }
    let ghost ks = sig_key_order(m);
    let mut base = String::new();
    let s_len = sorted.len();
    let mut l: usize = 0;
    while l < s_len
        invariant
            s_len == sorted@.len(),
            l <= s_len,
            ks == sig_key_order(m),
            ks.len() == s_len,
            forall|j: int| 0 <= j < s_len ==> pairs_view(sorted@)[j].0 == #[trigger] ks[j]
                && m.dom().contains(ks[j]) && pairs_view(sorted@)[j].1 == m[ks[j]],
            base@ == concat_keyed(m, ks.take(l as int)),
        decreases s_len - l,
    {
        base.append(sorted[l].0.as_str());
        base.append(sorted[l].1.as_str());
        proof {
            let t = ks.take(l as int + 1);
            assert(pairs_view(sorted@)[l as int].0 == ks[l as int]);
            assert(sorted@[l as int].0@ == ks[l as int]);
            assert(sorted@[l as int].1@ == m[ks[l as int]]);
            assert(t.drop_last() =~= ks.take(l as int));
            assert(t.last() == ks[l as int]);
            assert(concat_keyed(m, t) == concat_keyed(m, ks.take(l as int)) + ks[l as int]
                + m[ks[l as int]]);
            assert(base@ =~= concat_keyed(m, t));
        }
        l = l + 1;
    }
    proof {
        assert(ks.take(s_len as int) =~= ks);
    }
    base.append(api_secret);
    md5_hex(base.as_str())
}

/// Compare two strings for character-for-character equality.
pub fn str_eq(a: &str, b: &str) -> (r: bool)
    ensures
        r == (a@ == b@),
{
    let a_len = a.unicode_len();
    let b_len = b.unicode_len();
    if a_len != b_len {
        return false;
    }
    let mut i: usize = 0;
    while i < a_len
        invariant
            i <= a_len,
            a_len == a@.len(),
            a_len == b@.len(),
            forall|j: int| 0 <= j < i ==> a@[j] == b@[j],
        decreases a_len - i,
    {
        if a.get_char(i) != b.get_char(i) {
            return false;
        }
        i = i + 1;
    }
    proof {
        assert(a@ =~= b@);
    }
    true
}

} // verus!
