//! Tag operations.

use vstd::prelude::*;

use crate::api::{opt_insert, opt_insert_i64};
use crate::catalog::LastfmMethod;
use crate::client::Lastfm;
use crate::dispatch::{prepared_params, HttpVerb, PreparedRequest};
use crate::error::LastfmError;
use crate::fmtnum::{i64_to_dec};
use crate::params::ParameterBuilder;

verus! {

/// Tag-related operations of a client context.
#[derive(Debug)]
pub struct Tag<'a> {
    pub lastfm: &'a Lastfm,
}

impl<'a> Tag<'a> {
    pub fn new(lastfm: &'a Lastfm) -> (r: Self)
        ensures
            r.lastfm == lastfm,
    {
        Tag { lastfm }
    }

    /// A fresh `TagGetInfo` request.
    pub fn get_info(&mut self) -> (r: TagGetInfo<'a>)
        ensures
            r.lastfm == old(self).lastfm,
            r.tag is None,
            r.lang is None,
            r.method is TagGetInfo,
    {
        TagGetInfo::new(self.lastfm)
    }

    /// A fresh `TagGetSimilar` request.
    pub fn get_similar(&mut self) -> (r: TagGetSimilar<'a>)
        ensures
            r.lastfm == old(self).lastfm,
            r.tag is None,
            r.method is TagGetSimilar,
    {
        TagGetSimilar::new(self.lastfm)
    }

    /// A fresh `TagGetTopAlbums` request.
    pub fn get_top_albums(&mut self) -> (r: TagGetTopAlbums<'a>)
        ensures
            r.lastfm == old(self).lastfm,
            r.tag is None,
            r.limit is None,
            r.page is None,
            r.method is TagGetTopAlbums,
    {
        TagGetTopAlbums::new(self.lastfm)
    }

    /// A fresh `TagGetTopTags` request.
    pub fn get_top_tags(&mut self) -> (r: TagGetTopTags<'a>)
        ensures
            r.lastfm == old(self).lastfm,
            r.method is TagGetTopTags,
    {
        TagGetTopTags::new(self.lastfm)
    }

    /// A fresh `TagGetWeeklyChartList` request.
    pub fn get_weekly_chart_list(&mut self) -> (r: TagGetWeeklyChartList<'a>)
        ensures
            r.lastfm == old(self).lastfm,
            r.tag is None,
            r.method is TagGetWeeklyChartList,
    {
        TagGetWeeklyChartList::new(self.lastfm)
    }

}

/// Look up a tag's metadata.
#[derive(Debug)]
pub struct TagGetInfo<'a> {
    pub lastfm: &'a Lastfm,
    pub tag: Option<String>,
    pub lang: Option<String>,
    pub method: LastfmMethod,
}

impl<'a> TagGetInfo<'a> {
    pub fn new(lastfm: &'a Lastfm) -> (r: Self)
        ensures
            r.lastfm == lastfm,
            r.tag is None,
            r.lang is None,
            r.method is TagGetInfo,
    {
        TagGetInfo {
            lastfm,
            tag: None,
            lang: None,
            method: LastfmMethod::TagGetInfo,
        }
    }

    pub fn tag(self, tag: &str) -> (r: Self)
        ensures
            r.tag matches Some(v) && v@ == tag@,
            r.lang == self.lang,
            r.lastfm == self.lastfm,
            r.method == self.method,
    {
        TagGetInfo {
            lastfm: self.lastfm,
            tag: Some(tag.to_owned()),
            lang: self.lang,
            method: self.method,
        }
    }

    pub fn lang(self, lang: &str) -> (r: Self)
        ensures
            r.lang matches Some(v) && v@ == lang@,
            r.tag == self.tag,
            r.lastfm == self.lastfm,
            r.method == self.method,
    {
        TagGetInfo {
            lastfm: self.lastfm,
            tag: self.tag,
            lang: Some(lang.to_owned()),
            method: self.method,
        }
    }

    /// This operation has no local invariants to check.
    pub open spec fn valid(&self) -> bool {
        true
    }

    /// The fields this request contributes to the wire.
    pub open spec fn param_map(&self) -> Map<Seq<char>, Seq<char>> {
        opt_insert(opt_insert(Map::empty(), "tag"@, self.tag), "lang"@, self.lang)
    }

    /// Validate the fields, drain them into a parameter set, and assemble
    /// the dispatched call.
    pub fn prepare(self) -> (r: Result<PreparedRequest, LastfmError>)
        ensures
            !self.valid() ==> (r matches Err(e) && e matches LastfmError::Generic(_)),
            self.valid() && self.method.requires_auth_spec() && self.lastfm.sk is None ==> (
            r matches Err(e) && e matches LastfmError::Generic(_)),
            self.valid() && !(self.method.requires_auth_spec() && self.lastfm.sk is None) ==> (
            r matches Ok(p) && p.params.wf() && p.verb == HttpVerb::Get && p.params@
                == prepared_params(
                self.param_map(),
                self.method,
                self.lastfm.api_key@,
                self.lastfm.sk_view(),
                self.lastfm.api_secret@,
            )),
    {
        let TagGetInfo { lastfm, tag, lang, method } = self;
        let params = ParameterBuilder::new()
            .add_optional("tag", tag)
            .add_optional("lang", lang)
            .build();
        lastfm.prepare_request(&method, params, HttpVerb::Get)
    }
}

/// Look up tags similar to one tag.
#[derive(Debug)]
pub struct TagGetSimilar<'a> {
    pub lastfm: &'a Lastfm,
    pub tag: Option<String>,
    pub method: LastfmMethod,
}

impl<'a> TagGetSimilar<'a> {
    pub fn new(lastfm: &'a Lastfm) -> (r: Self)
        ensures
            r.lastfm == lastfm,
            r.tag is None,
            r.method is TagGetSimilar,
    {
        TagGetSimilar {
            lastfm,
            tag: None,
            method: LastfmMethod::TagGetSimilar,
        }
    }

    pub fn tag(self, tag: &str) -> (r: Self)
        ensures
            r.tag matches Some(v) && v@ == tag@,
            r.lastfm == self.lastfm,
            r.method == self.method,
    {
        TagGetSimilar {
            lastfm: self.lastfm,
            tag: Some(tag.to_owned()),
            method: self.method,
        }
    }

    /// This operation has no local invariants to check.
    pub open spec fn valid(&self) -> bool {
        true
    }

    /// The fields this request contributes to the wire.
    pub open spec fn param_map(&self) -> Map<Seq<char>, Seq<char>> {
        opt_insert(Map::empty(), "tag"@, self.tag)
    }

    /// Validate the fields, drain them into a parameter set, and assemble
    /// the dispatched call.
    pub fn prepare(self) -> (r: Result<PreparedRequest, LastfmError>)
        ensures
            !self.valid() ==> (r matches Err(e) && e matches LastfmError::Generic(_)),
            self.valid() && self.method.requires_auth_spec() && self.lastfm.sk is None ==> (
            r matches Err(e) && e matches LastfmError::Generic(_)),
            self.valid() && !(self.method.requires_auth_spec() && self.lastfm.sk is None) ==> (
            r matches Ok(p) && p.params.wf() && p.verb == HttpVerb::Get && p.params@
                == prepared_params(
                self.param_map(),
                self.method,
                self.lastfm.api_key@,
                self.lastfm.sk_view(),
                self.lastfm.api_secret@,
            )),
    {
        let TagGetSimilar { lastfm, tag, method } = self;
        let params = ParameterBuilder::new()
            .add_optional("tag", tag)
            .build();
        lastfm.prepare_request(&method, params, HttpVerb::Get)
    }
}

/// The top albums tagged with one tag.
#[derive(Debug)]
pub struct TagGetTopAlbums<'a> {
    pub lastfm: &'a Lastfm,
    pub tag: Option<String>,
    pub limit: Option<i64>,
    pub page: Option<i64>,
    pub method: LastfmMethod,
}

impl<'a> TagGetTopAlbums<'a> {
    pub fn new(lastfm: &'a Lastfm) -> (r: Self)
        ensures
            r.lastfm == lastfm,
            r.tag is None,
            r.limit is None,
            r.page is None,
            r.method is TagGetTopAlbums,
    {
        TagGetTopAlbums {
            lastfm,
            tag: None,
            limit: None,
            page: None,
            method: LastfmMethod::TagGetTopAlbums,
        }
    }

    pub fn tag(self, tag: &str) -> (r: Self)
        ensures
            r.tag matches Some(v) && v@ == tag@,
            r.limit == self.limit,
            r.page == self.page,
            r.lastfm == self.lastfm,
            r.method == self.method,
    {
        TagGetTopAlbums {
            lastfm: self.lastfm,
            tag: Some(tag.to_owned()),
            limit: self.limit,
            page: self.page,
            method: self.method,
        }
    }

    pub fn limit(self, limit: i64) -> (r: Self)
        ensures
            r.limit == Some(limit),
            r.tag == self.tag,
            r.page == self.page,
            r.lastfm == self.lastfm,
            r.method == self.method,
    {
        TagGetTopAlbums {
            lastfm: self.lastfm,
            tag: self.tag,
            limit: Some(limit),
            page: self.page,
            method: self.method,
        }
    }

    pub fn page(self, page: i64) -> (r: Self)
        ensures
            r.page == Some(page),
            r.tag == self.tag,
            r.limit == self.limit,
            r.lastfm == self.lastfm,
            r.method == self.method,
    {
        TagGetTopAlbums {
            lastfm: self.lastfm,
            tag: self.tag,
            limit: self.limit,
            page: Some(page),
            method: self.method,
        }
    }

    /// This operation has no local invariants to check.
    pub open spec fn valid(&self) -> bool {
        true
    }

    /// The fields this request contributes to the wire.
    pub open spec fn param_map(&self) -> Map<Seq<char>, Seq<char>> {
        opt_insert_i64(opt_insert_i64(opt_insert(Map::empty(), "tag"@, self.tag), "limit"@, self.limit), "page"@, self.page)
    }

    /// Validate the fields, drain them into a parameter set, and assemble
    /// the dispatched call.
    pub fn prepare(self) -> (r: Result<PreparedRequest, LastfmError>)
        ensures
            !self.valid() ==> (r matches Err(e) && e matches LastfmError::Generic(_)),
            self.valid() && self.method.requires_auth_spec() && self.lastfm.sk is None ==> (
            r matches Err(e) && e matches LastfmError::Generic(_)),
            self.valid() && !(self.method.requires_auth_spec() && self.lastfm.sk is None) ==> (
            r matches Ok(p) && p.params.wf() && p.verb == HttpVerb::Get && p.params@
                == prepared_params(
                self.param_map(),
                self.method,
                self.lastfm.api_key@,
                self.lastfm.sk_view(),
                self.lastfm.api_secret@,
            )),
    {
        let TagGetTopAlbums { lastfm, tag, limit, page, method } = self;
        let limit_value = match limit {
            Some(n) => Some(i64_to_dec(n)),
            None => None,
        };
        let page_value = match page {
            Some(n) => Some(i64_to_dec(n)),
            None => None,
        };
        let params = ParameterBuilder::new()
            .add_optional("tag", tag)
            .add_optional("limit", limit_value)
            .add_optional("page", page_value)
            .build();
        lastfm.prepare_request(&method, params, HttpVerb::Get)
    }
}

/// The overall chart of top tags.
#[derive(Debug)]
pub struct TagGetTopTags<'a> {
    pub lastfm: &'a Lastfm,
    pub method: LastfmMethod,
}

impl<'a> TagGetTopTags<'a> {
    pub fn new(lastfm: &'a Lastfm) -> (r: Self)
        ensures
            r.lastfm == lastfm,
            r.method is TagGetTopTags,
    {
        TagGetTopTags {
            lastfm,
            method: LastfmMethod::TagGetTopTags,
        }
    }

    /// This operation has no local invariants to check.
    pub open spec fn valid(&self) -> bool {
        true
    }

    /// The fields this request contributes to the wire.
    pub open spec fn param_map(&self) -> Map<Seq<char>, Seq<char>> {
        Map::empty()
    }

    /// Validate the fields, drain them into a parameter set, and assemble
    /// the dispatched call.
    pub fn prepare(self) -> (r: Result<PreparedRequest, LastfmError>)
        ensures
            !self.valid() ==> (r matches Err(e) && e matches LastfmError::Generic(_)),
            self.valid() && self.method.requires_auth_spec() && self.lastfm.sk is None ==> (
            r matches Err(e) && e matches LastfmError::Generic(_)),
            self.valid() && !(self.method.requires_auth_spec() && self.lastfm.sk is None) ==> (
            r matches Ok(p) && p.params.wf() && p.verb == HttpVerb::Get && p.params@
                == prepared_params(
                self.param_map(),
                self.method,
                self.lastfm.api_key@,
                self.lastfm.sk_view(),
                self.lastfm.api_secret@,
            )),
    {
        let TagGetTopTags { lastfm, method } = self;
        let params = ParameterBuilder::new().build();
        lastfm.prepare_request(&method, params, HttpVerb::Get)
    }
}

/// The date ranges the weekly tag charts cover.
#[derive(Debug)]
pub struct TagGetWeeklyChartList<'a> {
    pub lastfm: &'a Lastfm,
    pub tag: Option<String>,
    pub method: LastfmMethod,
}

impl<'a> TagGetWeeklyChartList<'a> {
    pub fn new(lastfm: &'a Lastfm) -> (r: Self)
        ensures
            r.lastfm == lastfm,
            r.tag is None,
            r.method is TagGetWeeklyChartList,
    {
        TagGetWeeklyChartList {
            lastfm,
            tag: None,
            method: LastfmMethod::TagGetWeeklyChartList,
        }
    }

    pub fn tag(self, tag: &str) -> (r: Self)
        ensures
            r.tag matches Some(v) && v@ == tag@,
            r.lastfm == self.lastfm,
            r.method == self.method,
    {
        TagGetWeeklyChartList {
            lastfm: self.lastfm,
            tag: Some(tag.to_owned()),
            method: self.method,
        }
    }

    /// This operation has no local invariants to check.
    pub open spec fn valid(&self) -> bool {
        true
    }

    /// The fields this request contributes to the wire.
    pub open spec fn param_map(&self) -> Map<Seq<char>, Seq<char>> {
        opt_insert(Map::empty(), "tag"@, self.tag)
    }

    /// Validate the fields, drain them into a parameter set, and assemble
    /// the dispatched call.
    pub fn prepare(self) -> (r: Result<PreparedRequest, LastfmError>)
        ensures
            !self.valid() ==> (r matches Err(e) && e matches LastfmError::Generic(_)),
            self.valid() && self.method.requires_auth_spec() && self.lastfm.sk is None ==> (
            r matches Err(e) && e matches LastfmError::Generic(_)),
            self.valid() && !(self.method.requires_auth_spec() && self.lastfm.sk is None) ==> (
            r matches Ok(p) && p.params.wf() && p.verb == HttpVerb::Get && p.params@
                == prepared_params(
                self.param_map(),
                self.method,
                self.lastfm.api_key@,
                self.lastfm.sk_view(),
                self.lastfm.api_secret@,
            )),
    {
        let TagGetWeeklyChartList { lastfm, tag, method } = self;
        let params = ParameterBuilder::new()
            .add_optional("tag", tag)
            .build();
        lastfm.prepare_request(&method, params, HttpVerb::Get)
    }
}

} // verus!
