//! Artist operations: lookups, search, and tag removal.

use vstd::prelude::*;

use crate::api::{count_commas, opt_insert, opt_insert_bool, opt_insert_i64, tag_count};
use crate::catalog::LastfmMethod;
use crate::client::Lastfm;
use crate::dispatch::{prepared_params, HttpVerb, PreparedRequest};
use crate::error::LastfmError;
use crate::fmtnum::{bool_to_str, i64_to_dec};
use crate::params::ParameterBuilder;

verus! {

/// Artist-related operations of a client context.
#[derive(Debug)]
pub struct Artist<'a> {
    pub lastfm: &'a Lastfm,
}

impl<'a> Artist<'a> {
    pub fn new(lastfm: &'a Lastfm) -> (r: Self)
        ensures
            r.lastfm == lastfm,
    {
        Artist { lastfm }
    }

    /// A fresh `ArtistGetCorrection` request.
    pub fn get_correction(&mut self) -> (r: ArtistGetCorrection<'a>)
        ensures
            r.lastfm == old(self).lastfm,
            r.artist is None,
            r.method is ArtistGetCorrection,
    {
        ArtistGetCorrection::new(self.lastfm)
    }

    /// A fresh `ArtistGetInfo` request.
    pub fn get_info(&mut self) -> (r: ArtistGetInfo<'a>)
        ensures
            r.lastfm == old(self).lastfm,
            r.artist is None,
            r.mbid is None,
            r.autocorrect == Some(false),
            r.username is None,
            r.lang is None,
            r.method is ArtistGetInfo,
    {
        ArtistGetInfo::new(self.lastfm)
    }

    /// A fresh `ArtistGetSimilar` request.
    pub fn get_similar(&mut self) -> (r: ArtistGetSimilar<'a>)
        ensures
            r.lastfm == old(self).lastfm,
            r.artist is None,
            r.mbid is None,
            r.autocorrect == Some(false),
            r.limit is None,
            r.method is ArtistGetSimilar,
    {
        ArtistGetSimilar::new(self.lastfm)
    }

    /// A fresh `ArtistGetTopTags` request.
    pub fn get_top_tags(&mut self) -> (r: ArtistGetTopTags<'a>)
        ensures
            r.lastfm == old(self).lastfm,
            r.artist is None,
            r.mbid is None,
            r.autocorrect == Some(false),
            r.method is ArtistGetTopTags,
    {
        ArtistGetTopTags::new(self.lastfm)
    }

    /// A fresh `ArtistGetTopTracks` request.
    pub fn get_top_tracks(&mut self) -> (r: ArtistGetTopTracks<'a>)
        ensures
            r.lastfm == old(self).lastfm,
            r.artist is None,
            r.mbid is None,
            r.autocorrect == Some(false),
            r.limit is None,
            r.page is None,
            r.method is ArtistGetTopTracks,
    {
        ArtistGetTopTracks::new(self.lastfm)
    }

    /// A fresh `ArtistRemoveTag` request.
    pub fn remove_tag(&mut self) -> (r: ArtistRemoveTag<'a>)
        ensures
            r.lastfm == old(self).lastfm,
            r.artist is None,
            r.tag is None,
            r.method is ArtistRemoveTag,
    {
        ArtistRemoveTag::new(self.lastfm)
    }

    /// A fresh `ArtistSearch` request.
    pub fn search(&mut self) -> (r: ArtistSearch<'a>)
        ensures
            r.lastfm == old(self).lastfm,
            r.artist is None,
            r.limit is None,
            r.page is None,
            r.method is ArtistSearch,
    {
        ArtistSearch::new(self.lastfm)
    }

}

/// Look up the canonical correction of an artist name.
#[derive(Debug)]
pub struct ArtistGetCorrection<'a> {
    pub lastfm: &'a Lastfm,
    pub artist: Option<String>,
    pub method: LastfmMethod,
}

impl<'a> ArtistGetCorrection<'a> {
    pub fn new(lastfm: &'a Lastfm) -> (r: Self)
        ensures
            r.lastfm == lastfm,
            r.artist is None,
            r.method is ArtistGetCorrection,
    {
        ArtistGetCorrection {
            lastfm,
            artist: None,
            method: LastfmMethod::ArtistGetCorrection,
        }
    }

    pub fn artist(self, artist: &str) -> (r: Self)
        ensures
            r.artist matches Some(v) && v@ == artist@,
            r.lastfm == self.lastfm,
            r.method == self.method,
    {
        ArtistGetCorrection {
            lastfm: self.lastfm,
            artist: Some(artist.to_owned()),
            method: self.method,
        }
    }

    /// The per-operation invariants checked before dispatch.
    pub open spec fn valid(&self) -> bool {
        &&& self.artist is Some
    }

    /// The fields this request contributes to the wire.
    pub open spec fn param_map(&self) -> Map<Seq<char>, Seq<char>> {
        opt_insert(Map::empty(), "artist"@, self.artist)
    }

    /// Validate the fields, drain them into a parameter set, and assemble
    /// the dispatched call.
    pub fn prepare(self) -> (r: Result<PreparedRequest, LastfmError>)
        ensures
            !self.valid() ==> (r matches Err(e) && e matches LastfmError::Generic(_)),
            (self.artist is None) ==> (r matches Err(e)
                && e matches LastfmError::Generic(m) && m@ == "Field 'artist' is required."@),
            self.valid() && self.method.requires_auth_spec() && self.lastfm.sk is None ==> (
            r matches Err(e) && e matches LastfmError::Generic(_)),
            self.valid() && !(self.method.requires_auth_spec() && self.lastfm.sk is None) ==> (
            r matches Ok(p) && p.params.wf() && p.verb == HttpVerb::Get && p.params@
                == prepared_params(
                self.param_map(),
                self.method,
                self.lastfm.api_key@,
                self.lastfm.sk_view(),
                self.lastfm.api_secret@,
            )),
    {
        if self.artist.is_none() {
            return Err(LastfmError::Generic("Field 'artist' is required.".to_owned()));
        }
        let ArtistGetCorrection { lastfm, artist, method } = self;
        let params = ParameterBuilder::new()
            .add_optional("artist", artist)
            .build();
        lastfm.prepare_request(&method, params, HttpVerb::Get)
    }
}

/// Look up an artist's metadata.
#[derive(Debug)]
pub struct ArtistGetInfo<'a> {
    pub lastfm: &'a Lastfm,
    pub artist: Option<String>,
    pub mbid: Option<String>,
    pub autocorrect: Option<bool>,
    pub username: Option<String>,
    pub lang: Option<String>,
    pub method: LastfmMethod,
}

impl<'a> ArtistGetInfo<'a> {
    pub fn new(lastfm: &'a Lastfm) -> (r: Self)
        ensures
            r.lastfm == lastfm,
            r.artist is None,
            r.mbid is None,
            r.autocorrect == Some(false),
            r.username is None,
            r.lang is None,
            r.method is ArtistGetInfo,
    {
        ArtistGetInfo {
            lastfm,
            artist: None,
            mbid: None,
            autocorrect: Some(false),
            username: None,
            lang: None,
            method: LastfmMethod::ArtistGetInfo,
        }
    }

    pub fn artist(self, artist: &str) -> (r: Self)
        ensures
            r.artist matches Some(v) && v@ == artist@,
            r.mbid == self.mbid,
            r.autocorrect == self.autocorrect,
            r.username == self.username,
            r.lang == self.lang,
            r.lastfm == self.lastfm,
            r.method == self.method,
    {
        ArtistGetInfo {
            lastfm: self.lastfm,
            artist: Some(artist.to_owned()),
            mbid: self.mbid,
            autocorrect: self.autocorrect,
            username: self.username,
            lang: self.lang,
            method: self.method,
        }
    }

    pub fn mbid(self, mbid: &str) -> (r: Self)
        ensures
            r.mbid matches Some(v) && v@ == mbid@,
            r.artist == self.artist,
            r.autocorrect == self.autocorrect,
            r.username == self.username,
            r.lang == self.lang,
            r.lastfm == self.lastfm,
            r.method == self.method,
    {
        ArtistGetInfo {
            lastfm: self.lastfm,
            artist: self.artist,
            mbid: Some(mbid.to_owned()),
            autocorrect: self.autocorrect,
            username: self.username,
            lang: self.lang,
            method: self.method,
        }
    }

    pub fn autocorrect(self, autocorrect: bool) -> (r: Self)
        ensures
            r.autocorrect == Some(autocorrect),
            r.artist == self.artist,
            r.mbid == self.mbid,
            r.username == self.username,
            r.lang == self.lang,
            r.lastfm == self.lastfm,
            r.method == self.method,
    {
        ArtistGetInfo {
            lastfm: self.lastfm,
            artist: self.artist,
            mbid: self.mbid,
            autocorrect: Some(autocorrect),
            username: self.username,
            lang: self.lang,
            method: self.method,
        }
    }

    pub fn username(self, username: &str) -> (r: Self)
        ensures
            r.username matches Some(v) && v@ == username@,
            r.artist == self.artist,
            r.mbid == self.mbid,
            r.autocorrect == self.autocorrect,
            r.lang == self.lang,
            r.lastfm == self.lastfm,
            r.method == self.method,
    {
        ArtistGetInfo {
            lastfm: self.lastfm,
            artist: self.artist,
            mbid: self.mbid,
            autocorrect: self.autocorrect,
            username: Some(username.to_owned()),
            lang: self.lang,
            method: self.method,
        }
    }

    pub fn lang(self, lang: &str) -> (r: Self)
        ensures
            r.lang matches Some(v) && v@ == lang@,
            r.artist == self.artist,
            r.mbid == self.mbid,
            r.autocorrect == self.autocorrect,
            r.username == self.username,
            r.lastfm == self.lastfm,
            r.method == self.method,
    {
        ArtistGetInfo {
            lastfm: self.lastfm,
            artist: self.artist,
            mbid: self.mbid,
            autocorrect: self.autocorrect,
            username: self.username,
            lang: Some(lang.to_owned()),
            method: self.method,
        }
    }

    /// The per-operation invariants checked before dispatch.
    pub open spec fn valid(&self) -> bool {
        &&& self.mbid is Some || self.artist is Some
    }

    /// The fields this request contributes to the wire.
    pub open spec fn param_map(&self) -> Map<Seq<char>, Seq<char>> {
        opt_insert_bool(opt_insert(opt_insert(opt_insert(opt_insert(Map::empty(), "artist"@, self.artist), "mbid"@, self.mbid), "username"@, self.username), "lang"@, self.lang), "autocorrect"@, self.autocorrect)
    }

    /// Validate the fields, drain them into a parameter set, and assemble
    /// the dispatched call.
    pub fn prepare(self) -> (r: Result<PreparedRequest, LastfmError>)
        ensures
            !self.valid() ==> (r matches Err(e) && e matches LastfmError::Generic(_)),
            (self.mbid is None && self.artist is None) ==> (r matches Err(e)
                && e matches LastfmError::Generic(m) && m@ == "Either 'mbid' or 'artist' must be provided."@),
            self.valid() && self.method.requires_auth_spec() && self.lastfm.sk is None ==> (
            r matches Err(e) && e matches LastfmError::Generic(_)),
            self.valid() && !(self.method.requires_auth_spec() && self.lastfm.sk is None) ==> (
            r matches Ok(p) && p.params.wf() && p.verb == HttpVerb::Get && p.params@
                == prepared_params(
                self.param_map(),
                self.method,
                self.lastfm.api_key@,
                self.lastfm.sk_view(),
                self.lastfm.api_secret@,
            )),
    {
        if self.mbid.is_none() && self.artist.is_none() {
            return Err(LastfmError::Generic("Either 'mbid' or 'artist' must be provided.".to_owned()));
        }
        let ArtistGetInfo { lastfm, artist, mbid, autocorrect, username, lang, method } = self;
        let autocorrect_value = match autocorrect {
            Some(v) => Some(bool_to_str(v)),
            None => None,
        };
        let params = ParameterBuilder::new()
            .add_optional("artist", artist)
            .add_optional("mbid", mbid)
            .add_optional("username", username)
            .add_optional("lang", lang)
            .add_optional("autocorrect", autocorrect_value)
            .build();
        lastfm.prepare_request(&method, params, HttpVerb::Get)
    }
}

/// Look up artists similar to one artist.
#[derive(Debug)]
pub struct ArtistGetSimilar<'a> {
    pub lastfm: &'a Lastfm,
    pub artist: Option<String>,
    pub mbid: Option<String>,
    pub autocorrect: Option<bool>,
    pub limit: Option<i64>,
    pub method: LastfmMethod,
}

impl<'a> ArtistGetSimilar<'a> {
    pub fn new(lastfm: &'a Lastfm) -> (r: Self)
        ensures
            r.lastfm == lastfm,
            r.artist is None,
            r.mbid is None,
            r.autocorrect == Some(false),
            r.limit is None,
            r.method is ArtistGetSimilar,
    {
        ArtistGetSimilar {
            lastfm,
            artist: None,
            mbid: None,
            autocorrect: Some(false),
            limit: None,
            method: LastfmMethod::ArtistGetSimilar,
        }
    }

    pub fn artist(self, artist: &str) -> (r: Self)
        ensures
            r.artist matches Some(v) && v@ == artist@,
            r.mbid == self.mbid,
            r.autocorrect == self.autocorrect,
            r.limit == self.limit,
            r.lastfm == self.lastfm,
            r.method == self.method,
    {
        ArtistGetSimilar {
            lastfm: self.lastfm,
            artist: Some(artist.to_owned()),
            mbid: self.mbid,
            autocorrect: self.autocorrect,
            limit: self.limit,
            method: self.method,
        }
    }

    pub fn mbid(self, mbid: &str) -> (r: Self)
        ensures
            r.mbid matches Some(v) && v@ == mbid@,
            r.artist == self.artist,
            r.autocorrect == self.autocorrect,
            r.limit == self.limit,
            r.lastfm == self.lastfm,
            r.method == self.method,
    {
        ArtistGetSimilar {
            lastfm: self.lastfm,
            artist: self.artist,
            mbid: Some(mbid.to_owned()),
            autocorrect: self.autocorrect,
            limit: self.limit,
            method: self.method,
        }
    }

    pub fn autocorrect(self, autocorrect: bool) -> (r: Self)
        ensures
            r.autocorrect == Some(autocorrect),
            r.artist == self.artist,
            r.mbid == self.mbid,
            r.limit == self.limit,
            r.lastfm == self.lastfm,
            r.method == self.method,
    {
        ArtistGetSimilar {
            lastfm: self.lastfm,
            artist: self.artist,
            mbid: self.mbid,
            autocorrect: Some(autocorrect),
            limit: self.limit,
            method: self.method,
        }
    }

    pub fn limit(self, limit: i64) -> (r: Self)
        ensures
            r.limit == Some(limit),
            r.artist == self.artist,
            r.mbid == self.mbid,
            r.autocorrect == self.autocorrect,
            r.lastfm == self.lastfm,
            r.method == self.method,
    {
        ArtistGetSimilar {
            lastfm: self.lastfm,
            artist: self.artist,
            mbid: self.mbid,
            autocorrect: self.autocorrect,
            limit: Some(limit),
            method: self.method,
        }
    }

    /// The per-operation invariants checked before dispatch.
    pub open spec fn valid(&self) -> bool {
        &&& self.mbid is Some || self.artist is Some
    }

    /// The fields this request contributes to the wire.
    pub open spec fn param_map(&self) -> Map<Seq<char>, Seq<char>> {
        opt_insert_bool(opt_insert_i64(opt_insert(opt_insert(Map::empty(), "artist"@, self.artist), "mbid"@, self.mbid), "limit"@, self.limit), "autocorrect"@, self.autocorrect)
    }

    /// Validate the fields, drain them into a parameter set, and assemble
    /// the dispatched call.
    pub fn prepare(self) -> (r: Result<PreparedRequest, LastfmError>)
        ensures
            !self.valid() ==> (r matches Err(e) && e matches LastfmError::Generic(_)),
            (self.mbid is None && self.artist is None) ==> (r matches Err(e)
                && e matches LastfmError::Generic(m) && m@ == "Either 'mbid' or 'artist' must be provided."@),
            self.valid() && self.method.requires_auth_spec() && self.lastfm.sk is None ==> (
            r matches Err(e) && e matches LastfmError::Generic(_)),
            self.valid() && !(self.method.requires_auth_spec() && self.lastfm.sk is None) ==> (
            r matches Ok(p) && p.params.wf() && p.verb == HttpVerb::Get && p.params@
                == prepared_params(
                self.param_map(),
                self.method,
                self.lastfm.api_key@,
                self.lastfm.sk_view(),
                self.lastfm.api_secret@,
            )),
    {
        if self.mbid.is_none() && self.artist.is_none() {
            return Err(LastfmError::Generic("Either 'mbid' or 'artist' must be provided.".to_owned()));
        }
        let ArtistGetSimilar { lastfm, artist, mbid, autocorrect, limit, method } = self;
        let limit_value = match limit {
            Some(n) => Some(i64_to_dec(n)),
            None => None,
        };
        let autocorrect_value = match autocorrect {
            Some(v) => Some(bool_to_str(v)),
            None => None,
        };
        let params = ParameterBuilder::new()
            .add_optional("artist", artist)
            .add_optional("mbid", mbid)
            .add_optional("limit", limit_value)
            .add_optional("autocorrect", autocorrect_value)
            .build();
        lastfm.prepare_request(&method, params, HttpVerb::Get)
    }
}

/// Look up an artist's top tags.
#[derive(Debug)]
pub struct ArtistGetTopTags<'a> {
    pub lastfm: &'a Lastfm,
    pub artist: Option<String>,
    pub mbid: Option<String>,
    pub autocorrect: Option<bool>,
    pub method: LastfmMethod,
}

impl<'a> ArtistGetTopTags<'a> {
    pub fn new(lastfm: &'a Lastfm) -> (r: Self)
        ensures
            r.lastfm == lastfm,
            r.artist is None,
            r.mbid is None,
            r.autocorrect == Some(false),
            r.method is ArtistGetTopTags,
    {
        ArtistGetTopTags {
            lastfm,
            artist: None,
            mbid: None,
            autocorrect: Some(false),
            method: LastfmMethod::ArtistGetTopTags,
        }
    }

    pub fn artist(self, artist: &str) -> (r: Self)
        ensures
            r.artist matches Some(v) && v@ == artist@,
            r.mbid == self.mbid,
            r.autocorrect == self.autocorrect,
            r.lastfm == self.lastfm,
            r.method == self.method,
    {
        ArtistGetTopTags {
            lastfm: self.lastfm,
            artist: Some(artist.to_owned()),
            mbid: self.mbid,
            autocorrect: self.autocorrect,
            method: self.method,
        }
    }

    pub fn mbid(self, mbid: &str) -> (r: Self)
        ensures
            r.mbid matches Some(v) && v@ == mbid@,
            r.artist == self.artist,
            r.autocorrect == self.autocorrect,
            r.lastfm == self.lastfm,
            r.method == self.method,
    {
        ArtistGetTopTags {
            lastfm: self.lastfm,
            artist: self.artist,
            mbid: Some(mbid.to_owned()),
            autocorrect: self.autocorrect,
            method: self.method,
        }
    }

    pub fn autocorrect(self, autocorrect: bool) -> (r: Self)
        ensures
            r.autocorrect == Some(autocorrect),
            r.artist == self.artist,
            r.mbid == self.mbid,
            r.lastfm == self.lastfm,
            r.method == self.method,
    {
        ArtistGetTopTags {
            lastfm: self.lastfm,
            artist: self.artist,
            mbid: self.mbid,
            autocorrect: Some(autocorrect),
            method: self.method,
        }
    }

    /// The per-operation invariants checked before dispatch.
    pub open spec fn valid(&self) -> bool {
        &&& self.mbid is Some || self.artist is Some
    }

    /// The fields this request contributes to the wire.
    pub open spec fn param_map(&self) -> Map<Seq<char>, Seq<char>> {
        opt_insert_bool(opt_insert(opt_insert(Map::empty(), "artist"@, self.artist), "mbid"@, self.mbid), "autocorrect"@, self.autocorrect)
    }

    /// Validate the fields, drain them into a parameter set, and assemble
    /// the dispatched call.
    pub fn prepare(self) -> (r: Result<PreparedRequest, LastfmError>)
        ensures
            !self.valid() ==> (r matches Err(e) && e matches LastfmError::Generic(_)),
            (self.mbid is None && self.artist is None) ==> (r matches Err(e)
                && e matches LastfmError::Generic(m) && m@ == "Either 'mbid' or 'artist' must be provided."@),
            self.valid() && self.method.requires_auth_spec() && self.lastfm.sk is None ==> (
            r matches Err(e) && e matches LastfmError::Generic(_)),
            self.valid() && !(self.method.requires_auth_spec() && self.lastfm.sk is None) ==> (
            r matches Ok(p) && p.params.wf() && p.verb == HttpVerb::Get && p.params@
                == prepared_params(
                self.param_map(),
                self.method,
                self.lastfm.api_key@,
                self.lastfm.sk_view(),
                self.lastfm.api_secret@,
            )),
    {
        if self.mbid.is_none() && self.artist.is_none() {
            return Err(LastfmError::Generic("Either 'mbid' or 'artist' must be provided.".to_owned()));
        }
        let ArtistGetTopTags { lastfm, artist, mbid, autocorrect, method } = self;
        let autocorrect_value = match autocorrect {
            Some(v) => Some(bool_to_str(v)),
            None => None,
        };
        let params = ParameterBuilder::new()
            .add_optional("artist", artist)
            .add_optional("mbid", mbid)
            .add_optional("autocorrect", autocorrect_value)
            .build();
        lastfm.prepare_request(&method, params, HttpVerb::Get)
    }
}

/// Look up an artist's top tracks.
#[derive(Debug)]
pub struct ArtistGetTopTracks<'a> {
    pub lastfm: &'a Lastfm,
    pub artist: Option<String>,
    pub mbid: Option<String>,
    pub autocorrect: Option<bool>,
    pub limit: Option<i64>,
    pub page: Option<i64>,
    pub method: LastfmMethod,
}

impl<'a> ArtistGetTopTracks<'a> {
    pub fn new(lastfm: &'a Lastfm) -> (r: Self)
        ensures
            r.lastfm == lastfm,
            r.artist is None,
            r.mbid is None,
            r.autocorrect == Some(false),
            r.limit is None,
            r.page is None,
            r.method is ArtistGetTopTracks,
    {
        ArtistGetTopTracks {
            lastfm,
            artist: None,
            mbid: None,
            autocorrect: Some(false),
            limit: None,
            page: None,
            method: LastfmMethod::ArtistGetTopTracks,
        }
    }

    pub fn artist(self, artist: &str) -> (r: Self)
        ensures
            r.artist matches Some(v) && v@ == artist@,
            r.mbid == self.mbid,
            r.autocorrect == self.autocorrect,
            r.limit == self.limit,
            r.page == self.page,
            r.lastfm == self.lastfm,
            r.method == self.method,
    {
        ArtistGetTopTracks {
            lastfm: self.lastfm,
            artist: Some(artist.to_owned()),
            mbid: self.mbid,
            autocorrect: self.autocorrect,
            limit: self.limit,
            page: self.page,
            method: self.method,
        }
    }

    pub fn mbid(self, mbid: &str) -> (r: Self)
        ensures
            r.mbid matches Some(v) && v@ == mbid@,
            r.artist == self.artist,
            r.autocorrect == self.autocorrect,
            r.limit == self.limit,
            r.page == self.page,
            r.lastfm == self.lastfm,
            r.method == self.method,
    {
        ArtistGetTopTracks {
            lastfm: self.lastfm,
            artist: self.artist,
            mbid: Some(mbid.to_owned()),
            autocorrect: self.autocorrect,
            limit: self.limit,
            page: self.page,
            method: self.method,
        }
    }

    pub fn autocorrect(self, autocorrect: bool) -> (r: Self)
        ensures
            r.autocorrect == Some(autocorrect),
            r.artist == self.artist,
            r.mbid == self.mbid,
            r.limit == self.limit,
            r.page == self.page,
            r.lastfm == self.lastfm,
            r.method == self.method,
    {
        ArtistGetTopTracks {
            lastfm: self.lastfm,
            artist: self.artist,
            mbid: self.mbid,
            autocorrect: Some(autocorrect),
            limit: self.limit,
            page: self.page,
            method: self.method,
        }
    }

    pub fn limit(self, limit: i64) -> (r: Self)
        ensures
            r.limit == Some(limit),
            r.artist == self.artist,
            r.mbid == self.mbid,
            r.autocorrect == self.autocorrect,
            r.page == self.page,
            r.lastfm == self.lastfm,
            r.method == self.method,
    {
        ArtistGetTopTracks {
            lastfm: self.lastfm,
            artist: self.artist,
            mbid: self.mbid,
            autocorrect: self.autocorrect,
            limit: Some(limit),
            page: self.page,
            method: self.method,
        }
    }

    pub fn page(self, page: i64) -> (r: Self)
        ensures
            r.page == Some(page),
            r.artist == self.artist,
            r.mbid == self.mbid,
            r.autocorrect == self.autocorrect,
            r.limit == self.limit,
            r.lastfm == self.lastfm,
            r.method == self.method,
    {
        ArtistGetTopTracks {
            lastfm: self.lastfm,
            artist: self.artist,
            mbid: self.mbid,
            autocorrect: self.autocorrect,
            limit: self.limit,
            page: Some(page),
            method: self.method,
        }
    }

    /// The per-operation invariants checked before dispatch.
    pub open spec fn valid(&self) -> bool {
        &&& self.mbid is Some || self.artist is Some
    }

    /// The fields this request contributes to the wire.
    pub open spec fn param_map(&self) -> Map<Seq<char>, Seq<char>> {
        opt_insert_i64(opt_insert_i64(opt_insert_bool(opt_insert(opt_insert(Map::empty(), "artist"@, self.artist), "mbid"@, self.mbid), "autocorrect"@, self.autocorrect), "limit"@, self.limit), "page"@, self.page)
    }

    /// Validate the fields, drain them into a parameter set, and assemble
    /// the dispatched call.
    pub fn prepare(self) -> (r: Result<PreparedRequest, LastfmError>)
        ensures
            !self.valid() ==> (r matches Err(e) && e matches LastfmError::Generic(_)),
            (self.mbid is None && self.artist is None) ==> (r matches Err(e)
                && e matches LastfmError::Generic(m) && m@ == "Either 'mbid' or 'artist' must be provided."@),
            self.valid() && self.method.requires_auth_spec() && self.lastfm.sk is None ==> (
            r matches Err(e) && e matches LastfmError::Generic(_)),
            self.valid() && !(self.method.requires_auth_spec() && self.lastfm.sk is None) ==> (
            r matches Ok(p) && p.params.wf() && p.verb == HttpVerb::Get && p.params@
                == prepared_params(
                self.param_map(),
                self.method,
                self.lastfm.api_key@,
                self.lastfm.sk_view(),
                self.lastfm.api_secret@,
            )),
    {
        if self.mbid.is_none() && self.artist.is_none() {
            return Err(LastfmError::Generic("Either 'mbid' or 'artist' must be provided.".to_owned()));
        }
        let ArtistGetTopTracks { lastfm, artist, mbid, autocorrect, limit, page, method } = self;
        let autocorrect_value = match autocorrect {
            Some(v) => Some(bool_to_str(v)),
            None => None,
        };
        let limit_value = match limit {
            Some(n) => Some(i64_to_dec(n)),
            None => None,
        };
        let page_value = match page {
            Some(n) => Some(i64_to_dec(n)),
            None => None,
        };
        let params = ParameterBuilder::new()
            .add_optional("artist", artist)
            .add_optional("mbid", mbid)
            .add_optional("autocorrect", autocorrect_value)
            .add_optional("limit", limit_value)
            .add_optional("page", page_value)
            .build();
        lastfm.prepare_request(&method, params, HttpVerb::Get)
    }
}

/// Remove exactly one tag from an artist; authenticated.
#[derive(Debug)]
pub struct ArtistRemoveTag<'a> {
    pub lastfm: &'a Lastfm,
    pub artist: Option<String>,
    pub tag: Option<String>,
    pub method: LastfmMethod,
}

impl<'a> ArtistRemoveTag<'a> {
    pub fn new(lastfm: &'a Lastfm) -> (r: Self)
        ensures
            r.lastfm == lastfm,
            r.artist is None,
            r.tag is None,
            r.method is ArtistRemoveTag,
    {
        ArtistRemoveTag {
            lastfm,
            artist: None,
            tag: None,
            method: LastfmMethod::ArtistRemoveTag,
        }
    }

    pub fn artist(self, artist: &str) -> (r: Self)
        ensures
            r.artist matches Some(v) && v@ == artist@,
            r.tag == self.tag,
            r.lastfm == self.lastfm,
            r.method == self.method,
    {
        ArtistRemoveTag {
            lastfm: self.lastfm,
            artist: Some(artist.to_owned()),
            tag: self.tag,
            method: self.method,
        }
    }

    pub fn tag(self, tag: &str) -> (r: Self)
        ensures
            r.tag matches Some(v) && v@ == tag@,
            r.artist == self.artist,
            r.lastfm == self.lastfm,
            r.method == self.method,
    {
        ArtistRemoveTag {
            lastfm: self.lastfm,
            artist: self.artist,
            tag: Some(tag.to_owned()),
            method: self.method,
        }
    }

    /// The per-operation invariants checked before dispatch.
    pub open spec fn valid(&self) -> bool {
        &&& self.artist is Some
        &&& self.tag is Some
        &&& tag_count(self.tag->Some_0@) == 1
    }

    /// The fields this request contributes to the wire.
    pub open spec fn param_map(&self) -> Map<Seq<char>, Seq<char>> {
        opt_insert(opt_insert(Map::empty(), "artist"@, self.artist), "tag"@, self.tag)
    }

    /// Validate the fields, drain them into a parameter set, and assemble
    /// the dispatched call.
    pub fn prepare(self) -> (r: Result<PreparedRequest, LastfmError>)
        ensures
            !self.valid() ==> (r matches Err(e) && e matches LastfmError::Generic(_)),
            (self.artist is None) ==> (r matches Err(e)
                && e matches LastfmError::Generic(m) && m@ == "Field 'artist' is required."@),
            !(self.artist is None) && (self.tag is None) ==> (r matches Err(e)
                && e matches LastfmError::Generic(m) && m@ == "Field 'tags' is required."@),
            !(self.artist is None) && !(self.tag is None) && (tag_count(self.tag->Some_0@) != 1) ==> (r matches Err(e)
                && e matches LastfmError::Generic(m) && m@ == "Only 1 tag is allowed to remove at a time"@),
            self.valid() && self.method.requires_auth_spec() && self.lastfm.sk is None ==> (
            r matches Err(e) && e matches LastfmError::Generic(_)),
            self.valid() && !(self.method.requires_auth_spec() && self.lastfm.sk is None) ==> (
            r matches Ok(p) && p.params.wf() && p.verb == HttpVerb::Post && p.params@
                == prepared_params(
                self.param_map(),
                self.method,
                self.lastfm.api_key@,
                self.lastfm.sk_view(),
                self.lastfm.api_secret@,
            )),
    {
        if self.artist.is_none() {
            return Err(LastfmError::Generic("Field 'artist' is required.".to_owned()));
        }
        if self.tag.is_none() {
            return Err(LastfmError::Generic("Field 'tags' is required.".to_owned()));
        }
        if count_commas(self.tag.as_ref().unwrap().as_str()) != 0 {
            return Err(LastfmError::Generic("Only 1 tag is allowed to remove at a time".to_owned()));
        }
        let ArtistRemoveTag { lastfm, artist, tag, method } = self;
        let params = ParameterBuilder::new()
            .add_optional("artist", artist)
            .add_optional("tag", tag)
            .build();
        lastfm.prepare_request(&method, params, HttpVerb::Post)
    }
}

/// Search artists by name.
#[derive(Debug)]
pub struct ArtistSearch<'a> {
    pub lastfm: &'a Lastfm,
    pub artist: Option<String>,
    pub limit: Option<i64>,
    pub page: Option<i64>,
    pub method: LastfmMethod,
}

impl<'a> ArtistSearch<'a> {
    pub fn new(lastfm: &'a Lastfm) -> (r: Self)
        ensures
            r.lastfm == lastfm,
            r.artist is None,
            r.limit is None,
            r.page is None,
            r.method is ArtistSearch,
    {
        ArtistSearch {
            lastfm,
            artist: None,
            limit: None,
            page: None,
            method: LastfmMethod::ArtistSearch,
        }
    }

    pub fn artist(self, artist: &str) -> (r: Self)
        ensures
            r.artist matches Some(v) && v@ == artist@,
            r.limit == self.limit,
            r.page == self.page,
            r.lastfm == self.lastfm,
            r.method == self.method,
    {
        ArtistSearch {
            lastfm: self.lastfm,
            artist: Some(artist.to_owned()),
            limit: self.limit,
            page: self.page,
            method: self.method,
        }
    }

    pub fn limit(self, limit: i64) -> (r: Self)
        ensures
            r.limit == Some(limit),
            r.artist == self.artist,
            r.page == self.page,
            r.lastfm == self.lastfm,
            r.method == self.method,
    {
        ArtistSearch {
            lastfm: self.lastfm,
            artist: self.artist,
            limit: Some(limit),
            page: self.page,
            method: self.method,
        }
    }

    pub fn page(self, page: i64) -> (r: Self)
        ensures
            r.page == Some(page),
            r.artist == self.artist,
            r.limit == self.limit,
            r.lastfm == self.lastfm,
            r.method == self.method,
    {
        ArtistSearch {
            lastfm: self.lastfm,
            artist: self.artist,
            limit: self.limit,
            page: Some(page),
            method: self.method,
        }
    }

    /// The per-operation invariants checked before dispatch.
    pub open spec fn valid(&self) -> bool {
        &&& self.artist is Some && self.artist->Some_0@.len() > 0
    }

    /// The fields this request contributes to the wire.
    pub open spec fn param_map(&self) -> Map<Seq<char>, Seq<char>> {
        opt_insert_i64(opt_insert_i64(opt_insert(Map::empty(), "artist"@, self.artist), "limit"@, self.limit), "page"@, self.page)
    }

    /// Validate the fields, drain them into a parameter set, and assemble
    /// the dispatched call.
    pub fn prepare(self) -> (r: Result<PreparedRequest, LastfmError>)
        ensures
            !self.valid() ==> (r matches Err(e) && e matches LastfmError::Generic(_)),
            (self.artist is None || self.artist->Some_0@.len() == 0) ==> (r matches Err(e)
                && e matches LastfmError::Generic(m) && m@ == "The artist name is required."@),
            self.valid() && self.method.requires_auth_spec() && self.lastfm.sk is None ==> (
            r matches Err(e) && e matches LastfmError::Generic(_)),
            self.valid() && !(self.method.requires_auth_spec() && self.lastfm.sk is None) ==> (
            r matches Ok(p) && p.params.wf() && p.verb == HttpVerb::Get && p.params@
                == prepared_params(
                self.param_map(),
                self.method,
                self.lastfm.api_key@,
                self.lastfm.sk_view(),
                self.lastfm.api_secret@,
            )),
    {
        match &self.artist {
            Some(v) => {
                if v.as_str().is_empty() {
                    return Err(LastfmError::Generic("The artist name is required.".to_owned()));
                }
            },
            None => {
                return Err(LastfmError::Generic("The artist name is required.".to_owned()));
            },
        }
        let ArtistSearch { lastfm, artist, limit, page, method } = self;
        let limit_value = match limit {
            Some(n) => Some(i64_to_dec(n)),
            None => None,
        };
        let page_value = match page {
            Some(n) => Some(i64_to_dec(n)),
            None => None,
        };
        let params = ParameterBuilder::new()
            .add_optional("artist", artist)
            .add_optional("limit", limit_value)
            .add_optional("page", page_value)
            .build();
        lastfm.prepare_request(&method, params, HttpVerb::Get)
    }
}

} // verus!
