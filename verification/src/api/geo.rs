//! Geographic charts.

use vstd::prelude::*;

use crate::api::{opt_insert, opt_insert_i64};
use crate::catalog::LastfmMethod;
use crate::client::Lastfm;
use crate::dispatch::{prepared_params, HttpVerb, PreparedRequest};
use crate::error::LastfmError;
use crate::fmtnum::{i64_to_dec};
use crate::params::ParameterBuilder;

verus! {

/// Geography-related operations of a client context.
#[derive(Debug)]
pub struct Geo<'a> {
    pub lastfm: &'a Lastfm,
}

impl<'a> Geo<'a> {
    pub fn new(lastfm: &'a Lastfm) -> (r: Self)
        ensures
            r.lastfm == lastfm,
    {
        Geo { lastfm }
    }

    /// A fresh `GeoGetTopTracks` request.
    pub fn get_top_tracks(&mut self) -> (r: GeoGetTopTracks<'a>)
        ensures
            r.lastfm == old(self).lastfm,
            r.country is None,
            r.limit is None,
            r.page is None,
            r.method is GeoGetTopTracks,
    {
        GeoGetTopTracks::new(self.lastfm)
    }

}

/// The most popular tracks of one country.
#[derive(Debug)]
pub struct GeoGetTopTracks<'a> {
    pub lastfm: &'a Lastfm,
    pub country: Option<String>,
    pub limit: Option<i64>,
    pub page: Option<i64>,
    pub method: LastfmMethod,
}

impl<'a> GeoGetTopTracks<'a> {
    pub fn new(lastfm: &'a Lastfm) -> (r: Self)
        ensures
            r.lastfm == lastfm,
            r.country is None,
            r.limit is None,
            r.page is None,
            r.method is GeoGetTopTracks,
    {
        GeoGetTopTracks {
            lastfm,
            country: None,
            limit: None,
            page: None,
            method: LastfmMethod::GeoGetTopTracks,
        }
    }

    pub fn country(self, country: &str) -> (r: Self)
        ensures
            r.country matches Some(v) && v@ == country@,
            r.limit == self.limit,
            r.page == self.page,
            r.lastfm == self.lastfm,
            r.method == self.method,
    {
        GeoGetTopTracks {
            lastfm: self.lastfm,
            country: Some(country.to_owned()),
            limit: self.limit,
            page: self.page,
            method: self.method,
        }
    }

    pub fn limit(self, limit: i64) -> (r: Self)
        ensures
            r.limit == Some(limit),
            r.country == self.country,
            r.page == self.page,
            r.lastfm == self.lastfm,
            r.method == self.method,
    {
        GeoGetTopTracks {
            lastfm: self.lastfm,
            country: self.country,
            limit: Some(limit),
            page: self.page,
            method: self.method,
        }
    }

    pub fn page(self, page: i64) -> (r: Self)
        ensures
            r.page == Some(page),
            r.country == self.country,
            r.limit == self.limit,
            r.lastfm == self.lastfm,
            r.method == self.method,
    {
        GeoGetTopTracks {
            lastfm: self.lastfm,
            country: self.country,
            limit: self.limit,
            page: Some(page),
            method: self.method,
        }
    }

    /// This operation has no local invariants to check.
    pub open spec fn valid(&self) -> bool {
        true
    }

    /// The fields this request contributes to the wire.
    pub open spec fn param_map(&self) -> Map<Seq<char>, Seq<char>> {
        opt_insert_i64(opt_insert_i64(opt_insert(Map::empty(), "country"@, self.country), "limit"@, self.limit), "page"@, self.page)
    }

    /// Validate the fields, drain them into a parameter set, and assemble
    /// the dispatched call.
    pub fn prepare(self) -> (r: Result<PreparedRequest, LastfmError>)
        ensures
            !self.valid() ==> (r matches Err(e) && e matches LastfmError::Generic(_)),
            self.valid() && self.method.requires_auth_spec() && self.lastfm.sk is None ==> (
            r matches Err(e) && e matches LastfmError::Generic(_)),
            self.valid() && !(self.method.requires_auth_spec() && self.lastfm.sk is None) ==> (
            r matches Ok(p) && p.params.wf() && p.verb == HttpVerb::Get && p.params@
                == prepared_params(
                self.param_map(),
                self.method,
                self.lastfm.api_key@,
                self.lastfm.sk_view(),
                self.lastfm.api_secret@,
            )),
    {
        let GeoGetTopTracks { lastfm, country, limit, page, method } = self;
        let limit_value = match limit {
            Some(n) => Some(i64_to_dec(n)),
            None => None,
        };
        let page_value = match page {
            Some(n) => Some(i64_to_dec(n)),
            None => None,
        };
        let params = ParameterBuilder::new()
            .add_optional("country", country)
            .add_optional("limit", limit_value)
            .add_optional("page", page_value)
            .build();
        lastfm.prepare_request(&method, params, HttpVerb::Get)
    }
}

} // verus!
