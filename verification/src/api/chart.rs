//! Chart operations.

use vstd::prelude::*;

use crate::api::{opt_insert, opt_insert_i64};
use crate::catalog::LastfmMethod;
use crate::client::Lastfm;
use crate::dispatch::{prepared_params, HttpVerb, PreparedRequest};
use crate::error::LastfmError;
use crate::fmtnum::{i64_to_dec};
use crate::params::ParameterBuilder;

verus! {

/// Chart-related operations of a client context.
#[derive(Debug)]
pub struct Chart<'a> {
    pub lastfm: &'a Lastfm,
}

impl<'a> Chart<'a> {
    pub fn new(lastfm: &'a Lastfm) -> (r: Self)
        ensures
            r.lastfm == lastfm,
    {
        Chart { lastfm }
    }

    /// A fresh `ChartGetTopArtists` request.
    pub fn get_top_artists(&mut self) -> (r: ChartGetTopArtists<'a>)
        ensures
            r.lastfm == old(self).lastfm,
            r.limit is None,
            r.page is None,
            r.method is ChartGetTopArtists,
    {
        ChartGetTopArtists::new(self.lastfm)
    }

}

/// The overall chart of top artists.
#[derive(Debug)]
pub struct ChartGetTopArtists<'a> {
    pub lastfm: &'a Lastfm,
    pub limit: Option<i64>,
    pub page: Option<i64>,
    pub method: LastfmMethod,
}

impl<'a> ChartGetTopArtists<'a> {
    pub fn new(lastfm: &'a Lastfm) -> (r: Self)
        ensures
            r.lastfm == lastfm,
            r.limit is None,
            r.page is None,
            r.method is ChartGetTopArtists,
    {
        ChartGetTopArtists {
            lastfm,
            limit: None,
            page: None,
            method: LastfmMethod::ChartGetTopArtists,
        }
    }

    pub fn limit(self, limit: i64) -> (r: Self)
        ensures
            r.limit == Some(limit),
            r.page == self.page,
            r.lastfm == self.lastfm,
            r.method == self.method,
    {
        ChartGetTopArtists {
            lastfm: self.lastfm,
            limit: Some(limit),
            page: self.page,
            method: self.method,
        }
    }

    pub fn page(self, page: i64) -> (r: Self)
        ensures
            r.page == Some(page),
            r.limit == self.limit,
            r.lastfm == self.lastfm,
            r.method == self.method,
    {
        ChartGetTopArtists {
            lastfm: self.lastfm,
            limit: self.limit,
            page: Some(page),
            method: self.method,
        }
    }

    /// This operation has no local invariants to check.
    pub open spec fn valid(&self) -> bool {
        true
    }

    /// The fields this request contributes to the wire.
    pub open spec fn param_map(&self) -> Map<Seq<char>, Seq<char>> {
        opt_insert_i64(opt_insert_i64(Map::empty(), "limit"@, self.limit), "page"@, self.page)
    }

    /// Validate the fields, drain them into a parameter set, and assemble
    /// the dispatched call.
    pub fn prepare(self) -> (r: Result<PreparedRequest, LastfmError>)
        ensures
            !self.valid() ==> (r matches Err(e) && e matches LastfmError::Generic(_)),
            self.valid() && self.method.requires_auth_spec() && self.lastfm.sk is None ==> (
            r matches Err(e) && e matches LastfmError::Generic(_)),
            self.valid() && !(self.method.requires_auth_spec() && self.lastfm.sk is None) ==> (
            r matches Ok(p) && p.params.wf() && p.verb == HttpVerb::Get && p.params@
                == prepared_params(
                self.param_map(),
                self.method,
                self.lastfm.api_key@,
                self.lastfm.sk_view(),
                self.lastfm.api_secret@,
            )),
    {
        let ChartGetTopArtists { lastfm, limit, page, method } = self;
        let limit_value = match limit {
            Some(n) => Some(i64_to_dec(n)),
            None => None,
        };
        let page_value = match page {
            Some(n) => Some(i64_to_dec(n)),
            None => None,
        };
        let params = ParameterBuilder::new()
            .add_optional("limit", limit_value)
            .add_optional("page", page_value)
            .build();
        lastfm.prepare_request(&method, params, HttpVerb::Get)
    }
}

} // verus!
