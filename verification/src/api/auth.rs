//! The authentication handshake: token issuance, the authorization URL the
//! operator must visit, and the session-issuance exchange. The session call
//! is signed but exempt from the session-key requirement, since it is the
//! call that produces the session key.

use vstd::prelude::*;

use crate::catalog::LastfmMethod;
use crate::client::Lastfm;
use crate::dispatch::{HttpVerb, PreparedRequest};
use crate::error::LastfmError;
use crate::jsonext::{json_as_str, json_get, json_parsed, value_as_string, value_get};
use crate::models::AuthGetTokenResponse;
use crate::params::{ParameterBuilder, ParameterSet};
use crate::response::{classify_reply, decoded_api_error, has_error_key, APIResponse};
use crate::signing::signature_of;

verus! {

/// The characters of a string with every double-quote removed.
pub open spec fn without_quotes(s: Seq<char>) -> Seq<char>
    decreases s.len(),
{
    if s.len() == 0 {
        Seq::empty()
    } else {
        without_quotes(s.drop_last()) + (if s.last() == '"' {
            Seq::<char>::empty()
        } else {
            seq![s.last()]
        })
    }
}

/// Remove every double-quote from a string.
pub fn strip_quotes(s: &str) -> (r: String)
    ensures
        r@ == without_quotes(s@),
{
    let n = s.unicode_len();
    let mut out = String::new();
    proof {
        assert(s@.take(0) =~= Seq::<char>::empty());
    }
    let mut i: usize = 0;
    while i < n
        invariant
            i <= n,
            n == s@.len(),
            out@ == without_quotes(s@.take(i as int)),
        decreases n - i,
    {
        let c = s.get_char(i);
        if c != '"' {
            let piece = s.substring_char(i, i + 1);
            proof {
                assert(piece@ =~= seq![s@[i as int]]);
            }
            out.append(piece);
        }
        proof {
            assert(s@.take(i as int + 1).drop_last() =~= s@.take(i as int));
            assert(s@.take(i as int + 1).last() == s@[i as int]);
            assert(out@ =~= without_quotes(s@.take(i as int + 1)));
        }
        i = i + 1;
    }
    proof {
        assert(s@.take(n as int) =~= s@);
    }
    out
}

/// Authentication operations of a client context.
#[derive(Debug)]
pub struct Auth<'a> {
    pub lastfm: &'a Lastfm,
    pub api_key: String,
}

impl<'a> Auth<'a> {
    pub fn new(lastfm: &'a Lastfm) -> (r: Self)
        ensures
            r.lastfm == lastfm,
            r.api_key@ == lastfm.api_key@,
    {
        let api_key = lastfm.get_api_key();
        Auth { lastfm, api_key }
    }

    /// A fresh token-issuance request.
    pub fn get_token(&mut self) -> (r: AuthGetToken<'a>)
        ensures
            r.lastfm == old(self).lastfm,
            r.method is AuthGetToken,
    {
        AuthGetToken::new(self.lastfm)
    }

    /// A fresh session-issuance request.
    pub fn get_session(&mut self) -> (r: AuthGetSession<'a>)
        ensures
            r.lastfm == old(self).lastfm,
            r.token is None,
            r.method is AuthGetSession,
    {
        AuthGetSession::new(self.lastfm)
    }

    /// The URL the operator must visit to authorize the issued token, with
    /// any stray quotes removed from the token.
    pub fn authorize_url(&self, token: &str) -> (r: String)
        ensures
            r@ == "https://www.last.fm/api/auth?api_key="@ + self.api_key@ + "&token="@
                + without_quotes(token@),
    {
        let mut url = "https://www.last.fm/api/auth?api_key=".to_owned();
        url.append(self.api_key.as_str());
        url.append("&token=");
        let stripped = strip_quotes(token);
        url.append(stripped.as_str());
        proof {
            assert(url@ =~= "https://www.last.fm/api/auth?api_key="@ + self.api_key@ + "&token="@
                + without_quotes(token@));
        }
        url
    }
}

/// Obtain a short-lived, single-use request token; unauthenticated.
#[derive(Debug)]
pub struct AuthGetToken<'a> {
    pub lastfm: &'a Lastfm,
    pub method: LastfmMethod,
}

impl<'a> AuthGetToken<'a> {
    pub fn new(lastfm: &'a Lastfm) -> (r: Self)
        ensures
            r.lastfm == lastfm,
            r.method is AuthGetToken,
    {
        AuthGetToken { lastfm, method: LastfmMethod::AuthGetToken }
    }

    /// The parameters the token request begins with: the API key alone.
    pub fn request_token_params(&self) -> (r: ParameterSet)
        ensures
            r.wf(),
            r@ == Map::<Seq<char>, Seq<char>>::empty().insert("api_key"@, self.lastfm.api_key@),
    {
        let mut params = ParameterBuilder::new().build();
        params.insert("api_key", self.lastfm.get_api_key());
        params
    }

    /// Assemble the dispatched call: a plain read of the token-issuance
    /// operation.
    pub fn prepare(self) -> (r: Result<PreparedRequest, LastfmError>)
        ensures
            self.method.requires_auth_spec() && self.lastfm.sk is None ==> (r matches Err(e)
                && e matches LastfmError::Generic(_)),
            !(self.method.requires_auth_spec() && self.lastfm.sk is None) ==> (r matches Ok(p)
                && p.params.wf() && p.verb == HttpVerb::Get && p.params@
                == crate::dispatch::prepared_params(
                Map::<Seq<char>, Seq<char>>::empty().insert("api_key"@, self.lastfm.api_key@),
                self.method,
                self.lastfm.api_key@,
                self.lastfm.sk_view(),
                self.lastfm.api_secret@,
            )),
    {
        let params = self.request_token_params();
        self.lastfm.prepare_request(&self.method, params, HttpVerb::Get)
    }

    /// Decode the token out of a successful reply document.
    pub fn decode_token(doc: &serde_json::Value) -> (r: Result<AuthGetTokenResponse, LastfmError>)
        ensures
            match json_get(*doc, "token"@) {
                Some(tv) => match json_as_str(tv) {
                    Some(t) => r matches Ok(resp) && resp.token@ == t,
                    None => r matches Err(e) && e matches LastfmError::Decode(_),
                },
                None => r matches Err(e) && e matches LastfmError::Decode(_),
            },
    {
        match value_get(doc, "token") {
            Some(tv) => match value_as_string(tv) {
                Some(t) => Ok(AuthGetTokenResponse { token: t }),
                None => Err(LastfmError::Decode("the token is not a string".to_owned())),
            },
            None => Err(LastfmError::Decode("the reply holds no token".to_owned())),
        }
    }
}

/// Exchange an authorized token for a durable session key. The call is
/// signed over its own parameters but needs no session key.
#[derive(Debug)]
pub struct AuthGetSession<'a> {
    pub lastfm: &'a Lastfm,
    pub token: Option<String>,
    pub method: LastfmMethod,
}

impl<'a> AuthGetSession<'a> {
    pub fn new(lastfm: &'a Lastfm) -> (r: Self)
        ensures
            r.lastfm == lastfm,
            r.token is None,
            r.method is AuthGetSession,
    {
        AuthGetSession { lastfm, token: None, method: LastfmMethod::AuthGetSession }
    }

    /// Set the authorized token, removing any stray quotes.
    pub fn token(self, token: &str) -> (r: Self)
        ensures
            r.token matches Some(t) && t@ == without_quotes(token@),
            r.lastfm == self.lastfm,
            r.method == self.method,
    {
        let stripped = strip_quotes(token);
        AuthGetSession { lastfm: self.lastfm, token: Some(stripped), method: self.method }
    }

    /// The token; session issuance is impossible without one.
    pub fn get_token(&self) -> (r: String)
        requires
            self.token is Some,
        ensures
            r@ == self.token->Some_0@,
    {
        self.token.as_ref().unwrap().clone()
    }

    /// The parameters the exchange begins with: the API key and the token.
    pub fn request_session_params(&self) -> (r: ParameterSet)
        requires
            self.token is Some,
        ensures
            r.wf(),
            r@ == Map::<Seq<char>, Seq<char>>::empty().insert("api_key"@, self.lastfm.api_key@)
                .insert("token"@, self.token->Some_0@),
    {
        let mut params = ParameterBuilder::new().build();
        params.insert("api_key", self.lastfm.get_api_key());
        params.insert("token", self.get_token());
        params
    }

    /// Assemble the dispatched exchange: the API key, the token and the
    /// operation name, signed over exactly those parameters, with the reply
    /// format requested last.
    pub fn prepare(&self) -> (r: Result<PreparedRequest, LastfmError>)
        requires
            self.token is Some,
        ensures
            r matches Ok(p) && p.params.wf() && p.verb == HttpVerb::Get && p.params@ == ({
                let signed = Map::<Seq<char>, Seq<char>>::empty().insert(
                    "api_key"@,
                    self.lastfm.api_key@,
                ).insert("token"@, self.token->Some_0@).insert("method"@, self.method.wire_spec());
                signed.insert(
                    "api_sig"@,
                    signature_of(signed, self.lastfm.api_secret@),
                ).insert("format"@, "json"@)
            }),
    {
        let mut params = self.request_session_params();
        params.insert("method", self.method.wire_name());
        let api_sig = self.lastfm.sign_api(&params);
        params.insert("api_sig", api_sig);
        params.insert("format", "json".to_owned());
        Ok(PreparedRequest { verb: HttpVerb::Get, params })
    }

    /// Decode the durable session key out of a successful reply document.
    pub fn decode_session_key(doc: &serde_json::Value) -> (r: Result<String, LastfmError>)
        ensures
            match json_get(*doc, "session"@) {
                Some(sv) => match json_get(sv, "key"@) {
                    Some(kv) => match json_as_str(kv) {
                        Some(k) => r matches Ok(key) && key@ == k,
                        None => r matches Err(e) && e matches LastfmError::Decode(_),
                    },
                    None => r matches Err(e) && e matches LastfmError::Decode(_),
                },
                None => r matches Err(e) && e matches LastfmError::Decode(_),
            },
    {
        match value_get(doc, "session") {
            Some(sv) => match value_get(sv, "key") {
                Some(kv) => match value_as_string(kv) {
                    Some(k) => Ok(k),
                    None => Err(
                        LastfmError::Decode("the session key is not a string".to_owned()),
                    ),
                },
                None => Err(LastfmError::Decode("the session holds no key".to_owned())),
            },
            None => Err(LastfmError::Decode("the reply holds no session".to_owned())),
        }
    }

    /// Interpret the exchange's reply: a document with a top-level `error`
    /// key is the structured API failure, surfaced as an error; any other
    /// document carries the session and is returned whole.
    pub fn session_from_reply(body: &str) -> (r: Result<serde_json::Value, LastfmError>)
        ensures
            json_parsed(body@) is None ==> (r matches Err(e) && e matches
                LastfmError::JsonError(_)),
            json_parsed(body@) matches Some(doc) ==> {
                &&& !has_error_key(doc) ==> (r matches Ok(d) && d == doc)
                &&& has_error_key(doc) ==> match decoded_api_error(doc) {
                    Some(fields) => (r matches Err(e) && e matches LastfmError::ApiError(a)
                        && a.error == fields.0 && a.message@ == fields.1 && a.links@ == fields.2),
                    None => (r matches Err(e) && e matches LastfmError::Decode(_)),
                }
            },
    {
        match classify_reply(body) {
            Ok(APIResponse::Success(doc)) => Ok(doc),
            Ok(APIResponse::Error(api_error)) => Err(LastfmError::ApiError(api_error)),
            Err(e) => Err(e),
        }
    }
}

} // verus!
