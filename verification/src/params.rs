//! The parameter accumulator: an order-independent mapping from parameter
//! names to string values, built incrementally and consumed once by the
//! dispatch engine.
//!
//! The executable representation is an association list with unique keys;
//! its mathematical model is the finite map obtained by inserting the pairs
//! in order, so a later `add` of the same key overwrites the earlier value.

use vstd::prelude::*;

verus! {

/// The map denoted by an association list, later entries overwriting
/// earlier ones.
pub open spec fn assoc_map(ps: Seq<(Seq<char>, Seq<char>)>) -> Map<Seq<char>, Seq<char>>
    decreases ps.len(),
{
    if ps.len() == 0 {
        Map::empty()
    } else {
        assoc_map(ps.drop_last()).insert(ps.last().0, ps.last().1)
    }
}

/// No two entries share a key.
pub open spec fn unique_keys(ps: Seq<(Seq<char>, Seq<char>)>) -> bool {
    forall|i: int, j: int| 0 <= i < j < ps.len() ==> ps[i].0 != ps[j].0
}

/// The view of one executable pair of strings.
pub open spec fn pair_view(p: (String, String)) -> (Seq<char>, Seq<char>) {
    (p.0@, p.1@)
}

/// The view of an executable pair vector.
pub open spec fn pairs_view(ps: Seq<(String, String)>) -> Seq<(Seq<char>, Seq<char>)> {
    ps.map_values(|p: (String, String)| pair_view(p))
}

pub proof fn lemma_assoc_map_dom(ps: Seq<(Seq<char>, Seq<char>)>)
    ensures
        forall|k: Seq<char>| #[trigger] assoc_map(ps).dom().contains(k)
            <==> exists|i: int| 0 <= i < ps.len() && ps[i].0 == k,
    decreases ps.len(),
{
    if ps.len() > 0 {
        lemma_assoc_map_dom(ps.drop_last());
        assert(assoc_map(ps).dom() == assoc_map(ps.drop_last()).dom().insert(ps.last().0));
        assert forall|k: Seq<char>| #[trigger] assoc_map(ps).dom().contains(k)
            implies exists|i: int| 0 <= i < ps.len() && ps[i].0 == k by {
            if k == ps.last().0 {
                assert(ps[ps.len() - 1].0 == k);
            } else {
                assert(assoc_map(ps.drop_last()).dom().contains(k));
                let i = choose|i: int| 0 <= i < ps.drop_last().len() && ps.drop_last()[i].0 == k;
                assert(ps[i].0 == k);
            }
        }
        assert forall|k: Seq<char>| (exists|i: int| 0 <= i < ps.len() && ps[i].0 == k)
            implies #[trigger] assoc_map(ps).dom().contains(k) by {
            let i = choose|i: int| 0 <= i < ps.len() && ps[i].0 == k;
            if i < ps.len() - 1 {
                assert(ps.drop_last()[i].0 == k);
                assert(assoc_map(ps.drop_last()).dom().contains(k));
            }
        }
    }
}

pub proof fn lemma_assoc_map_index(ps: Seq<(Seq<char>, Seq<char>)>, i: int)
    requires
        unique_keys(ps),
        0 <= i < ps.len(),
    ensures
        assoc_map(ps).dom().contains(ps[i].0),
        assoc_map(ps)[ps[i].0] == ps[i].1,
    decreases ps.len(),
{
    lemma_assoc_map_dom(ps);
    if i < ps.len() - 1 {
        assert(ps[i].0 != ps.last().0);
        lemma_assoc_map_index(ps.drop_last(), i);
        assert(ps.drop_last()[i] == ps[i]);
    }
}

/// Removing the entry at position `i` removes exactly its key from the map.
pub proof fn lemma_assoc_map_remove(ps: Seq<(Seq<char>, Seq<char>)>, i: int)
    requires
        unique_keys(ps),
        0 <= i < ps.len(),
    ensures
        assoc_map(ps.remove(i)) == assoc_map(ps).remove(ps[i].0),
    decreases ps.len(),
{
    if i == ps.len() - 1 {
        assert(ps.remove(i) =~= ps.drop_last());
        lemma_assoc_map_dom(ps.drop_last());
        assert(!assoc_map(ps.drop_last()).dom().contains(ps.last().0));
        assert(assoc_map(ps.drop_last()) =~= assoc_map(ps).remove(ps.last().0));
    } else {
        let qs = ps.remove(i);
        assert(qs.drop_last() =~= ps.drop_last().remove(i));
        assert(qs.last() == ps.last());
        lemma_assoc_map_remove(ps.drop_last(), i);
        assert(ps.drop_last()[i] == ps[i]);
        assert(ps[i].0 != ps.last().0);
        assert(assoc_map(qs) =~= assoc_map(ps).remove(ps[i].0));
    }
}

/// Taking out the entry at `i` keeps the remaining keys unique and leaves no
/// entry with the removed key.
pub proof fn lemma_remove_entry(ps: Seq<(Seq<char>, Seq<char>)>, i: int)
    requires
        unique_keys(ps),
        0 <= i < ps.len(),
    ensures
        unique_keys(ps.remove(i)),
        forall|j: int| 0 <= j < ps.remove(i).len() ==> #[trigger] ps.remove(i)[j].0 != ps[i].0,
{
    let qs = ps.remove(i);
    assert forall|j: int| 0 <= j < qs.len() implies #[trigger] qs[j].0 != ps[i].0 by {
        if j < i {
            assert(qs[j] == ps[j]);
        } else {
            assert(qs[j] == ps[j + 1]);
        }
    }
    assert forall|a: int, b: int| 0 <= a < b < qs.len() implies qs[a].0 != qs[b].0 by {
        if a < i {
            assert(qs[a] == ps[a]);
        } else {
            assert(qs[a] == ps[a + 1]);
        }
        if b < i {
            assert(qs[b] == ps[b]);
        } else {
            assert(qs[b] == ps[b + 1]);
        }
    }
}

/// The accumulator is insertion-order independent: recording two fields
/// with distinct keys in either order yields the same parameter mapping, so
/// everything computed from the mapping — the signature above all — is
/// blind to the order the builder's setters ran in.
pub proof fn lemma_insert_order_irrelevant(
    m: Map<Seq<char>, Seq<char>>,
    k1: Seq<char>,
    v1: Seq<char>,
    k2: Seq<char>,
    v2: Seq<char>,
)
    requires
        k1 != k2,
    ensures
        m.insert(k1, v1).insert(k2, v2) == m.insert(k2, v2).insert(k1, v1),
{
    assert(m.insert(k1, v1).insert(k2, v2) =~= m.insert(k2, v2).insert(k1, v1));
}

/// A transient set of request parameters with unique keys, the product of a
/// drained builder and the engine's working material.
#[derive(Debug)]
pub struct ParameterSet {
    pub pairs: Vec<(String, String)>,
}

impl ParameterSet {
    /// The association list behind the set, as a mathematical sequence.
    pub open spec fn entries(&self) -> Seq<(Seq<char>, Seq<char>)> {
        pairs_view(self.pairs@)
    }

    /// Key uniqueness: the structural invariant every operation preserves.
    pub open spec fn wf(&self) -> bool {
        unique_keys(self.entries())
    }

    /// An empty parameter set.
    pub fn empty() -> (r: ParameterSet)
        ensures
            r.wf(),
            r@ == Map::<Seq<char>, Seq<char>>::empty(),
            r.entries().len() == 0,
    {
        let r = ParameterSet { pairs: Vec::new() };
        proof {
            assert(r.entries() =~= Seq::<(Seq<char>, Seq<char>)>::empty());
        }
        r
    }

    /// How many parameters are present.
    pub fn len(&self) -> (n: usize)
        ensures
            n == self.entries().len(),
    {
        self.pairs.len()
    }

    /// The key of the entry at position `i`.
    pub fn key_at(&self, i: usize) -> (r: &String)
        requires
            i < self.entries().len(),
        ensures
            r@ == self.entries()[i as int].0,
    {
        &self.pairs[i].0
    }

    /// The value of the entry at position `i`.
    pub fn value_at(&self, i: usize) -> (r: &String)
        requires
            i < self.entries().len(),
        ensures
            r@ == self.entries()[i as int].1,
    {
        &self.pairs[i].1
    }

    /// The position of `key` in the list, if it is present.
    fn index_of(&self, key: &String) -> (r: Option<usize>)
        ensures
            match r {
                Some(i) => i < self.entries().len() && self.entries()[i as int].0 == key@,
                None => forall|j: int|
                    0 <= j < self.entries().len() ==> self.entries()[j].0 != key@,
            },
    {
        let n = self.pairs.len();
        let mut i: usize = 0;
        while i < n
            invariant
                n == self.entries().len(),
                i <= n,
                forall|j: int| 0 <= j < i ==> self.entries()[j].0 != key@,
            decreases n - i,
        {
            if self.pairs[i].0 == *key {
                return Some(i);
            }
            i = i + 1;
        }
        None
    }

    /// Insert `key = value`, overwriting any earlier value for `key`.
    pub fn insert(&mut self, key: &str, value: String)
        requires
            old(self).wf(),
        ensures
            final(self).wf(),
            final(self)@ == old(self)@.insert(key@, value@),
    {
        let ghost ps0 = self.entries();
        let key_owned = key.to_owned();
        match self.index_of(&key_owned) {
            Some(i) => {
                proof {
                    lemma_assoc_map_remove(ps0, i as int);
                    lemma_remove_entry(ps0, i as int);
                }
                let _ = self.pairs.remove(i);
                proof {
                    assert(self.entries() =~= ps0.remove(i as int));
                    assert(assoc_map(self.entries()).insert(key@, value@)
                        =~= assoc_map(ps0).insert(key@, value@));
                }
            },
            None => {
                proof {
                    lemma_assoc_map_dom(ps0);
                }
            },
        }
        let ghost ps1 = self.entries();
        proof {
            assert(unique_keys(ps1));
            assert(forall|j: int| 0 <= j < ps1.len() ==> #[trigger] ps1[j].0 != key@);
            assert(assoc_map(ps1).insert(key@, value@) =~= assoc_map(ps0).insert(key@, value@));
        }
        self.pairs.push((key_owned, value));
        proof {
            assert(self.entries() =~= ps1.push((key@, value@)));
            assert(self.entries().drop_last() =~= ps1);
            assert forall|a: int, b: int|
                0 <= a < b < self.entries().len() implies self.entries()[a].0
                != self.entries()[b].0 by {
                if b == self.entries().len() - 1 {
                    assert(ps1[a].0 != key@);
                } else {
                    assert(self.entries()[a] == ps1[a]);
                    assert(self.entries()[b] == ps1[b]);
                }
            }
            assert(assoc_map(self.entries()) == assoc_map(ps1).insert(key@, value@));
        }
    }

    /// Whether `key` is present.
    pub fn contains_key(&self, key: &str) -> (r: bool)
        requires
            self.wf(),
        ensures
            r == self@.dom().contains(key@),
    {
        proof {
            lemma_assoc_map_dom(self.entries());
        }
        let key_owned = key.to_owned();
        match self.index_of(&key_owned) {
            Some(_) => true,
            None => false,
        }
    }
}

impl View for ParameterSet {
    type V = Map<Seq<char>, Seq<char>>;

    open spec fn view(&self) -> Map<Seq<char>, Seq<char>> {
        assoc_map(self.entries())
    }
}

/// The fluent accumulator the request builders drain their fields through.
#[derive(Debug)]
pub struct ParameterBuilder {
    pub params: ParameterSet,
}

impl ParameterBuilder {
    /// An accumulator holding nothing yet.
    pub fn new() -> (r: ParameterBuilder)
        ensures
            r.params.wf(),
            r.params@ == Map::<Seq<char>, Seq<char>>::empty(),
    {
        ParameterBuilder { params: ParameterSet::empty() }
    }

    /// Record `key = value`, overwriting any earlier value for `key`.
    pub fn add(self, key: &str, value: String) -> (r: ParameterBuilder)
        requires
            self.params.wf(),
        ensures
            r.params.wf(),
            r.params@ == self.params@.insert(key@, value@),
    {
        let mut next = self;
        next.params.insert(key, value);
        next
    }

    /// Record `key = value` when a value is present; leave the set unchanged
    /// otherwise.
    pub fn add_optional(self, key: &str, value: Option<String>) -> (r: ParameterBuilder)
        requires
            self.params.wf(),
        ensures
            r.params.wf(),
            r.params@ == match value {
                Some(v) => self.params@.insert(key@, v@),
                None => self.params@,
            },
    {
        match value {
            Some(v) => self.add(key, v),
            None => self,
        }
    }

    /// Yield the finished parameter set, consuming the accumulator.
    pub fn build(self) -> (r: ParameterSet)
        requires
            self.params.wf(),
        ensures
            r.wf(),
            r@ == self.params@,
    {
        self.params
    }
}

} // verus!
