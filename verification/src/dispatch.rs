//! The dispatch engine's local half: given an operation and its builder's
//! parameters, insert the protocol fields in order — `method`, `api_key`,
//! then for authenticated operations `sk` and the computed `api_sig`, and
//! finally `format` — and pin the verb the transport must use. The network
//! itself is outside this crate; what leaves here is exactly the parameter
//! mapping the wire will carry.

use vstd::prelude::*;

use crate::catalog::LastfmMethod;
use crate::client::Lastfm;
use crate::error::LastfmError;
use crate::params::ParameterSet;
use crate::signing::{sign_parameter_set, signature_of};

verus! {

/// The verbs the protocol uses: GET for reads, POST for mutations.
#[derive(Debug, Clone, Copy, PartialEq, Eq, Structural)]
pub enum HttpVerb {
    Get,
    Post,
}

/// A fully assembled request, ready for the transport.
#[derive(Debug)]
pub struct PreparedRequest {
    pub verb: HttpVerb,
    pub params: ParameterSet,
}

/// The parameter mapping a dispatched call carries: the builder's fields,
/// the operation's wire name under `method`, the API key, for authenticated
/// operations the session key under `sk` and the signature of everything so
/// far under `api_sig`, and `format` = `json`.
pub open spec fn prepared_params(
    base: Map<Seq<char>, Seq<char>>,
    method: LastfmMethod,
    api_key: Seq<char>,
    sk: Seq<char>,
    secret: Seq<char>,
) -> Map<Seq<char>, Seq<char>> {
    let with_id = base.insert("method"@, method.wire_spec()).insert("api_key"@, api_key);
    if method.requires_auth_spec() {
        let with_sk = with_id.insert("sk"@, sk);
        with_sk.insert("api_sig"@, signature_of(with_sk, secret)).insert("format"@, "json"@)
    } else {
        with_id.insert("format"@, "json"@)
    }
}

impl Lastfm {
    /// The session key's characters, when one is installed.
    pub open spec fn sk_view(&self) -> Seq<char> {
        match self.sk {
            Some(s) => s@,
            None => Seq::empty(),
        }
    }

    /// Sign the current parameter set with the context's shared secret.
    pub fn sign_api(&self, params: &ParameterSet) -> (r: String)
        requires
            params.wf(),
        ensures
            r@ == signature_of(params@, self.api_secret@),
            r@.len() == 32,
    {
        sign_parameter_set(params, self.api_secret.as_str())
    }

    /// Assemble the full parameter mapping for one call of `method` and fix
    /// its verb. An authenticated operation with no session key installed
    /// fails here, before anything reaches the network.
    pub fn prepare_request(&self, method: &LastfmMethod, params: ParameterSet, verb: HttpVerb)
        -> (r: Result<PreparedRequest, LastfmError>)
        requires
            params.wf(),
        ensures
            method.requires_auth_spec() && self.sk is None ==> (r matches Err(e) && e matches
                LastfmError::Generic(msg) && msg@ == "A user must be authenticated"@),
            !(method.requires_auth_spec() && self.sk is None) ==> (r matches Ok(p) && p.params.wf()
                && p.params@ == prepared_params(
                params@,
                *method,
                self.api_key@,
                self.sk_view(),
                self.api_secret@,
            ) && p.verb == verb),
    {
        let mut p = params;
        p.insert("method", method.wire_name());
        p.insert("api_key", self.get_api_key());
        if method.requires_auth() {
            if self.sk.is_none() {
                return Err(LastfmError::Generic("A user must be authenticated".to_owned()));
            }
            p.insert("sk", self.get_sk());
            let api_sig = self.sign_api(&p);
            p.insert("api_sig", api_sig);
        }
        p.insert("format", "json".to_owned());
        Ok(PreparedRequest { verb, params: p })
    }
}

/// Auth gating: a prepared authenticated call always carries the session
/// key under `sk` and the signature of the working mapping under `api_sig`.
pub proof fn lemma_auth_call_is_signed(
    base: Map<Seq<char>, Seq<char>>,
    method: LastfmMethod,
    api_key: Seq<char>,
    sk: Seq<char>,
    secret: Seq<char>,
)
    requires
        method.requires_auth_spec(),
    ensures
        prepared_params(base, method, api_key, sk, secret).dom().contains("sk"@),
        prepared_params(base, method, api_key, sk, secret).dom().contains("api_sig"@),
        prepared_params(base, method, api_key, sk, secret)["sk"@] == sk,
        prepared_params(base, method, api_key, sk, secret)["api_sig"@] == signature_of(
            base.insert("method"@, method.wire_spec()).insert("api_key"@, api_key).insert(
                "sk"@,
                sk,
            ),
            secret,
        ),
{
    reveal_strlit("sk");
    reveal_strlit("api_sig");
    reveal_strlit("format");
    assert("sk"@.len() == 2);
    assert("api_sig"@.len() == 7);
    assert("format"@.len() == 6);
}

/// Non-auth exemption: a prepared unauthenticated call never carries `sk`
/// or `api_sig`, however the context is configured, as long as the builder
/// itself did not set those keys.
pub proof fn lemma_non_auth_call_is_bare(
    base: Map<Seq<char>, Seq<char>>,
    method: LastfmMethod,
    api_key: Seq<char>,
    sk: Seq<char>,
    secret: Seq<char>,
)
    requires
        !method.requires_auth_spec(),
        !base.dom().contains("sk"@),
        !base.dom().contains("api_sig"@),
    ensures
        !prepared_params(base, method, api_key, sk, secret).dom().contains("sk"@),
        !prepared_params(base, method, api_key, sk, secret).dom().contains("api_sig"@),
{
    reveal_strlit("sk");
    reveal_strlit("api_sig");
    reveal_strlit("method");
    reveal_strlit("api_key");
    reveal_strlit("format");
    assert("sk"@.len() == 2);
    assert("api_sig"@.len() == 7);
    assert("method"@.len() == 6);
    assert("api_key"@.len() == 7);
    assert("format"@.len() == 6);
    assert("method"@[0] == 'm');
    assert("format"@[0] == 'f');
    assert("api_sig"@[4] == 's');
    assert("api_key"@[4] == 'k');
}

} // verus!
