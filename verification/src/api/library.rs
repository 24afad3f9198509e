//! A user's music library.

use vstd::prelude::*;

use crate::api::{opt_insert, opt_insert_i64};
use crate::catalog::LastfmMethod;
use crate::client::Lastfm;
use crate::dispatch::{prepared_params, HttpVerb, PreparedRequest};
use crate::error::LastfmError;
use crate::fmtnum::{i64_to_dec};
use crate::params::ParameterBuilder;

verus! {

/// Library-related operations of a client context.
#[derive(Debug)]
pub struct Library<'a> {
    pub lastfm: &'a Lastfm,
}

impl<'a> Library<'a> {
    pub fn new(lastfm: &'a Lastfm) -> (r: Self)
        ensures
            r.lastfm == lastfm,
    {
        Library { lastfm }
    }

    /// A fresh `LibraryGetArtists` request.
    pub fn get_artists(&mut self) -> (r: LibraryGetArtists<'a>)
        ensures
            r.lastfm == old(self).lastfm,
            r.user is None,
            r.limit is None,
            r.page is None,
            r.method is LibraryGetArtists,
    {
        LibraryGetArtists::new(self.lastfm)
    }

}

/// A paginated list of all the artists in a user's library.
#[derive(Debug)]
pub struct LibraryGetArtists<'a> {
    pub lastfm: &'a Lastfm,
    pub user: Option<String>,
    pub limit: Option<i64>,
    pub page: Option<i64>,
    pub method: LastfmMethod,
}

impl<'a> LibraryGetArtists<'a> {
    pub fn new(lastfm: &'a Lastfm) -> (r: Self)
        ensures
            r.lastfm == lastfm,
            r.user is None,
            r.limit is None,
            r.page is None,
            r.method is LibraryGetArtists,
    {
        LibraryGetArtists {
            lastfm,
            user: None,
            limit: None,
            page: None,
            method: LastfmMethod::LibraryGetArtists,
        }
    }

    pub fn user(self, user: &str) -> (r: Self)
        ensures
            r.user matches Some(v) && v@ == user@,
            r.limit == self.limit,
            r.page == self.page,
            r.lastfm == self.lastfm,
            r.method == self.method,
    {
        LibraryGetArtists {
            lastfm: self.lastfm,
            user: Some(user.to_owned()),
            limit: self.limit,
            page: self.page,
            method: self.method,
        }
    }

    pub fn limit(self, limit: i64) -> (r: Self)
        ensures
            r.limit == Some(limit),
            r.user == self.user,
            r.page == self.page,
            r.lastfm == self.lastfm,
            r.method == self.method,
    {
        LibraryGetArtists {
            lastfm: self.lastfm,
            user: self.user,
            limit: Some(limit),
            page: self.page,
            method: self.method,
        }
    }

    pub fn page(self, page: i64) -> (r: Self)
        ensures
            r.page == Some(page),
            r.user == self.user,
            r.limit == self.limit,
            r.lastfm == self.lastfm,
            r.method == self.method,
    {
        LibraryGetArtists {
            lastfm: self.lastfm,
            user: self.user,
            limit: self.limit,
            page: Some(page),
            method: self.method,
        }
    }

    /// The per-operation invariants checked before dispatch.
    pub open spec fn valid(&self) -> bool {
        &&& self.user is Some
    }

    /// The fields this request contributes to the wire.
    pub open spec fn param_map(&self) -> Map<Seq<char>, Seq<char>> {
        opt_insert_i64(opt_insert_i64(opt_insert(Map::empty(), "user"@, self.user), "limit"@, self.limit), "page"@, self.page)
    }

    /// Validate the fields, drain them into a parameter set, and assemble
    /// the dispatched call.
    pub fn prepare(self) -> (r: Result<PreparedRequest, LastfmError>)
        ensures
            !self.valid() ==> (r matches Err(e) && e matches LastfmError::Generic(_)),
            (self.user is None) ==> (r matches Err(e)
                && e matches LastfmError::Generic(m) && m@ == "Username is required."@),
            self.valid() && self.method.requires_auth_spec() && self.lastfm.sk is None ==> (
            r matches Err(e) && e matches LastfmError::Generic(_)),
            self.valid() && !(self.method.requires_auth_spec() && self.lastfm.sk is None) ==> (
            r matches Ok(p) && p.params.wf() && p.verb == HttpVerb::Get && p.params@
                == prepared_params(
                self.param_map(),
                self.method,
                self.lastfm.api_key@,
                self.lastfm.sk_view(),
                self.lastfm.api_secret@,
            )),
    {
        if self.user.is_none() {
            return Err(LastfmError::Generic("Username is required.".to_owned()));
        }
        let LibraryGetArtists { lastfm, user, limit, page, method } = self;
        let limit_value = match limit {
            Some(n) => Some(i64_to_dec(n)),
            None => None,
        };
        let page_value = match page {
            Some(n) => Some(i64_to_dec(n)),
            None => None,
        };
        let params = ParameterBuilder::new()
            .add_optional("user", user)
            .add_optional("limit", limit_value)
            .add_optional("page", page_value)
            .build();
        lastfm.prepare_request(&method, params, HttpVerb::Get)
    }
}

} // verus!
