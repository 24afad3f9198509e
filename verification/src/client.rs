//! The client context: the long-lived, process-scoped configuration every
//! request is made against. Credentials are read-only for the lifetime of a
//! call; the session key may be installed once, after the authentication
//! handshake and before authenticated traffic.

use vstd::prelude::*;

use crate::error::LastfmError;
use crate::LASTFM_API_URL;

verus! {

#[verifier::external_type_specification]
#[verifier::external_body]
pub struct ExReqwestClient(reqwest::Client);

/// Relies on reqwest::Client::clone: the handle is reference-counted, and a
/// clone is another handle to the same transport.
pub assume_specification[ <reqwest::Client as Clone>::clone ](
    c: &reqwest::Client,
) -> reqwest::Client;

/// Relies on reqwest::Client::new for the default transport handle.
#[verifier::external_body]
fn default_client() -> reqwest::Client {
    reqwest::Client::new()
}

/// The shared client context.
#[derive(Debug, Clone)]
pub struct Lastfm {
    pub base_url: String,
    pub api_key: String,
    pub client: reqwest::Client,
    pub api_secret: String,
    pub sk: Option<String>,
}

/// Two-phase configuration for a client context.
pub struct LastfmBuilder {
    pub api_key: Option<String>,
    pub client: Option<reqwest::Client>,
    pub api_secret: Option<String>,
    pub sk: Option<String>,
}

impl LastfmBuilder {
    /// Set the API key.
    pub fn api_key(self, api_key: String) -> (r: Self)
        ensures
            r.api_key == Some(api_key),
            r.api_secret == self.api_secret,
            r.sk == self.sk,
    {
        LastfmBuilder {
            api_key: Some(api_key),
            client: self.client,
            api_secret: self.api_secret,
            sk: self.sk,
        }
    }

    /// Set the shared API secret.
    pub fn api_secret(self, api_secret: String) -> (r: Self)
        ensures
            r.api_secret == Some(api_secret),
            r.api_key == self.api_key,
            r.sk == self.sk,
    {
        LastfmBuilder {
            api_key: self.api_key,
            client: self.client,
            api_secret: Some(api_secret),
            sk: self.sk,
        }
    }

    /// Set a pre-existing session key.
    pub fn session_key(self, sk: String) -> (r: Self)
        ensures
            r.sk == Some(sk),
            r.api_key == self.api_key,
            r.api_secret == self.api_secret,
    {
        LastfmBuilder {
            api_key: self.api_key,
            client: self.client,
            api_secret: self.api_secret,
            sk: Some(sk),
        }
    }

    /// Set the HTTP transport handle.
    pub fn client(self, client: reqwest::Client) -> (r: Self)
        ensures
            r.api_key == self.api_key,
            r.api_secret == self.api_secret,
            r.sk == self.sk,
    {
        LastfmBuilder {
            api_key: self.api_key,
            client: Some(client),
            api_secret: self.api_secret,
            sk: self.sk,
        }
    }

    /// Finish the configuration. The API key and secret are required; the
    /// transport falls back to a fresh default handle.
    pub fn build(self) -> (r: Result<Lastfm, LastfmError>)
        requires
            self.api_key is Some,
            self.api_secret is Some,
        ensures
            r matches Ok(c) && c.api_key == self.api_key->Some_0
                && c.api_secret == self.api_secret->Some_0 && c.sk == self.sk
                && c.base_url@ == LASTFM_API_URL@,
    {
        let client = match self.client {
            Some(c) => c,
            None => default_client(),
        };
        Ok(
            Lastfm {
                api_secret: self.api_secret.unwrap(),
                api_key: self.api_key.unwrap(),
                client,
                base_url: LASTFM_API_URL.to_owned(),
                sk: self.sk,
            },
        )
    }
}

impl Lastfm {
    /// Begin configuring a client context.
    pub fn builder() -> (r: LastfmBuilder)
        ensures
            r.api_key is None,
            r.api_secret is None,
            r.sk is None,
    {
        LastfmBuilder { api_key: None, client: None, api_secret: None, sk: None }
    }

    /// The transport handle.
    pub fn get_client(&self) -> (r: &reqwest::Client)
        ensures
            r == &self.client,
    {
        &self.client
    }

    /// The API key, cloned.
    pub fn get_api_key(&self) -> (r: String)
        ensures
            r@ == self.api_key@,
    {
        self.api_key.clone()
    }

    /// The shared API secret, cloned.
    pub fn get_api_secret(&self) -> (r: String)
        ensures
            r@ == self.api_secret@,
    {
        self.api_secret.clone()
    }

    /// The base endpoint URL.
    pub fn get_base_url(&self) -> (r: &String)
        ensures
            r@ == self.base_url@,
    {
        &self.base_url
    }

    /// The installed session key; a call without one is a configuration
    /// error, so one must be installed first.
    pub fn get_sk(&self) -> (r: String)
        requires
            self.sk is Some,
        ensures
            r@ == self.sk->Some_0@,
    {
        self.sk.as_ref().unwrap().clone()
    }

    /// Install the session key obtained by the authentication handshake.
    pub fn set_sk(&mut self, sk: String)
        ensures
            final(self).sk == Some(sk),
            final(self).api_key == old(self).api_key,
            final(self).api_secret == old(self).api_secret,
            final(self).base_url == old(self).base_url,
            final(self).client == old(self).client,
    {
        self.sk = Some(sk);
    }
}

} // verus!
