//! Album operations: tag management, lookups, and search.

use vstd::prelude::*;

use crate::api::{count_commas, opt_insert, opt_insert_bool, opt_insert_i64, tag_count};
use crate::catalog::LastfmMethod;
use crate::client::Lastfm;
use crate::dispatch::{prepared_params, HttpVerb, PreparedRequest};
use crate::error::LastfmError;
use crate::fmtnum::{bool_to_str, i64_to_dec};
use crate::params::ParameterBuilder;

verus! {

/// Album-related operations of a client context.
#[derive(Debug)]
pub struct Album<'a> {
    pub lastfm: &'a Lastfm,
}

impl<'a> Album<'a> {
    pub fn new(lastfm: &'a Lastfm) -> (r: Self)
        ensures
            r.lastfm == lastfm,
    {
        Album { lastfm }
    }

    /// A fresh `AlbumAddTagsRequest` request.
    pub fn add_tags(&mut self) -> (r: AlbumAddTagsRequest<'a>)
        ensures
            r.lastfm == old(self).lastfm,
            r.artist is None,
            r.album is None,
            r.tags is None,
            r.method is AlbumAddTags,
    {
        AlbumAddTagsRequest::new(self.lastfm)
    }

    /// A fresh `AlbumGetInfo` request.
    pub fn get_info(&mut self) -> (r: AlbumGetInfo<'a>)
        ensures
            r.lastfm == old(self).lastfm,
            r.artist is None,
            r.album is None,
            r.mbid is None,
            r.autocorrect == Some(false),
            r.username is None,
            r.lang is None,
            r.method is AlbumGetInfo,
    {
        AlbumGetInfo::new(self.lastfm)
    }

    /// A fresh `AlbumGetTags` request.
    pub fn get_tags(&mut self) -> (r: AlbumGetTags<'a>)
        ensures
            r.lastfm == old(self).lastfm,
            r.artist is None,
            r.album is None,
            r.mbid is None,
            r.user is None,
            r.autocorrect == Some(false),
            r.method is AlbumGetTags,
    {
        AlbumGetTags::new(self.lastfm)
    }

    /// A fresh `AlbumGetTopTags` request.
    pub fn get_top_tags(&mut self) -> (r: AlbumGetTopTags<'a>)
        ensures
            r.lastfm == old(self).lastfm,
            r.artist is None,
            r.album is None,
            r.mbid is None,
            r.autocorrect == Some(false),
            r.method is AlbumGetTopTags,
    {
        AlbumGetTopTags::new(self.lastfm)
    }

    /// A fresh `AlbumRemoveTag` request.
    pub fn remove_tag(&mut self) -> (r: AlbumRemoveTag<'a>)
        ensures
            r.lastfm == old(self).lastfm,
            r.artist is None,
            r.album is None,
            r.tag is None,
            r.method is AlbumRemoveTag,
    {
        AlbumRemoveTag::new(self.lastfm)
    }

    /// A fresh `AlbumSearch` request.
    pub fn search(&mut self) -> (r: AlbumSearch<'a>)
        ensures
            r.lastfm == old(self).lastfm,
            r.album is None,
            r.limit is None,
            r.page is None,
            r.method is AlbumSearch,
    {
        AlbumSearch::new(self.lastfm)
    }

}

/// Tag an album with up to ten comma-delimited tags; authenticated.
#[derive(Debug)]
pub struct AlbumAddTagsRequest<'a> {
    pub lastfm: &'a Lastfm,
    pub artist: Option<String>,
    pub album: Option<String>,
    pub tags: Option<String>,
    pub method: LastfmMethod,
}

impl<'a> AlbumAddTagsRequest<'a> {
    pub fn new(lastfm: &'a Lastfm) -> (r: Self)
        ensures
            r.lastfm == lastfm,
            r.artist is None,
            r.album is None,
            r.tags is None,
            r.method is AlbumAddTags,
    {
        AlbumAddTagsRequest {
            lastfm,
            artist: None,
            album: None,
            tags: None,
            method: LastfmMethod::AlbumAddTags,
        }
    }

    pub fn artist(self, artist: &str) -> (r: Self)
        ensures
            r.artist matches Some(v) && v@ == artist@,
            r.album == self.album,
            r.tags == self.tags,
            r.lastfm == self.lastfm,
            r.method == self.method,
    {
        AlbumAddTagsRequest {
            lastfm: self.lastfm,
            artist: Some(artist.to_owned()),
            album: self.album,
            tags: self.tags,
            method: self.method,
        }
    }

    pub fn album(self, album: &str) -> (r: Self)
        ensures
            r.album matches Some(v) && v@ == album@,
            r.artist == self.artist,
            r.tags == self.tags,
            r.lastfm == self.lastfm,
            r.method == self.method,
    {
        AlbumAddTagsRequest {
            lastfm: self.lastfm,
            artist: self.artist,
            album: Some(album.to_owned()),
            tags: self.tags,
            method: self.method,
        }
    }

    pub fn tags(self, tags: &str) -> (r: Self)
        ensures
            r.tags matches Some(v) && v@ == tags@,
            r.artist == self.artist,
            r.album == self.album,
            r.lastfm == self.lastfm,
            r.method == self.method,
    {
        AlbumAddTagsRequest {
            lastfm: self.lastfm,
            artist: self.artist,
            album: self.album,
            tags: Some(tags.to_owned()),
            method: self.method,
        }
    }

    /// The per-operation invariants checked before dispatch.
    pub open spec fn valid(&self) -> bool {
        &&& self.artist is Some
        &&& self.album is Some
        &&& self.tags is Some
        &&& tag_count(self.tags->Some_0@) <= 10
    }

    /// The fields this request contributes to the wire.
    pub open spec fn param_map(&self) -> Map<Seq<char>, Seq<char>> {
        opt_insert(opt_insert(opt_insert(Map::empty(), "artist"@, self.artist), "album"@, self.album), "tags"@, self.tags)
    }

    /// Validate the fields, drain them into a parameter set, and assemble
    /// the dispatched call.
    pub fn prepare(self) -> (r: Result<PreparedRequest, LastfmError>)
        ensures
            !self.valid() ==> (r matches Err(e) && e matches LastfmError::Generic(_)),
            (self.artist is None) ==> (r matches Err(e)
                && e matches LastfmError::Generic(m) && m@ == "Field 'artist' is required."@),
            !(self.artist is None) && (self.album is None) ==> (r matches Err(e)
                && e matches LastfmError::Generic(m) && m@ == "Field 'album' is required."@),
            !(self.artist is None) && !(self.album is None) && (self.tags is None) ==> (r matches Err(e)
                && e matches LastfmError::Generic(m) && m@ == "Field 'tags' is required."@),
            !(self.artist is None) && !(self.album is None) && !(self.tags is None) && (tag_count(self.tags->Some_0@) > 10) ==> (r matches Err(e)
                && e matches LastfmError::Generic(m) && m@ == "Cannot exceed 10 tags."@),
            self.valid() && self.method.requires_auth_spec() && self.lastfm.sk is None ==> (
            r matches Err(e) && e matches LastfmError::Generic(_)),
            self.valid() && !(self.method.requires_auth_spec() && self.lastfm.sk is None) ==> (
            r matches Ok(p) && p.params.wf() && p.verb == HttpVerb::Post && p.params@
                == prepared_params(
                self.param_map(),
                self.method,
                self.lastfm.api_key@,
                self.lastfm.sk_view(),
                self.lastfm.api_secret@,
            )),
    {
        if self.artist.is_none() {
            return Err(LastfmError::Generic("Field 'artist' is required.".to_owned()));
        }
        if self.album.is_none() {
            return Err(LastfmError::Generic("Field 'album' is required.".to_owned()));
        }
        if self.tags.is_none() {
            return Err(LastfmError::Generic("Field 'tags' is required.".to_owned()));
        }
        if count_commas(self.tags.as_ref().unwrap().as_str()) > 9 {
            return Err(LastfmError::Generic("Cannot exceed 10 tags.".to_owned()));
        }
        let AlbumAddTagsRequest { lastfm, artist, album, tags, method } = self;
        let params = ParameterBuilder::new()
            .add_optional("artist", artist)
            .add_optional("album", album)
            .add_optional("tags", tags)
            .build();
        lastfm.prepare_request(&method, params, HttpVerb::Post)
    }
}

/// Look up an album's metadata by name pair or unique identifier.
#[derive(Debug)]
pub struct AlbumGetInfo<'a> {
    pub lastfm: &'a Lastfm,
    pub artist: Option<String>,
    pub album: Option<String>,
    pub mbid: Option<String>,
    pub autocorrect: Option<bool>,
    pub username: Option<String>,
    pub lang: Option<String>,
    pub method: LastfmMethod,
}

impl<'a> AlbumGetInfo<'a> {
    pub fn new(lastfm: &'a Lastfm) -> (r: Self)
        ensures
            r.lastfm == lastfm,
            r.artist is None,
            r.album is None,
            r.mbid is None,
            r.autocorrect == Some(false),
            r.username is None,
            r.lang is None,
            r.method is AlbumGetInfo,
    {
        AlbumGetInfo {
            lastfm,
            artist: None,
            album: None,
            mbid: None,
            autocorrect: Some(false),
            username: None,
            lang: None,
            method: LastfmMethod::AlbumGetInfo,
        }
    }

    pub fn artist(self, artist: &str) -> (r: Self)
        ensures
            r.artist matches Some(v) && v@ == artist@,
            r.album == self.album,
            r.mbid == self.mbid,
            r.autocorrect == self.autocorrect,
            r.username == self.username,
            r.lang == self.lang,
            r.lastfm == self.lastfm,
            r.method == self.method,
    {
        AlbumGetInfo {
            lastfm: self.lastfm,
            artist: Some(artist.to_owned()),
            album: self.album,
            mbid: self.mbid,
            autocorrect: self.autocorrect,
            username: self.username,
            lang: self.lang,
            method: self.method,
        }
    }

    pub fn album(self, album: &str) -> (r: Self)
        ensures
            r.album matches Some(v) && v@ == album@,
            r.artist == self.artist,
            r.mbid == self.mbid,
            r.autocorrect == self.autocorrect,
            r.username == self.username,
            r.lang == self.lang,
            r.lastfm == self.lastfm,
            r.method == self.method,
    {
        AlbumGetInfo {
            lastfm: self.lastfm,
            artist: self.artist,
            album: Some(album.to_owned()),
            mbid: self.mbid,
            autocorrect: self.autocorrect,
            username: self.username,
            lang: self.lang,
            method: self.method,
        }
    }

    pub fn mbid(self, mbid: &str) -> (r: Self)
        ensures
            r.mbid matches Some(v) && v@ == mbid@,
            r.artist == self.artist,
            r.album == self.album,
            r.autocorrect == self.autocorrect,
            r.username == self.username,
            r.lang == self.lang,
            r.lastfm == self.lastfm,
            r.method == self.method,
    {
        AlbumGetInfo {
            lastfm: self.lastfm,
            artist: self.artist,
            album: self.album,
            mbid: Some(mbid.to_owned()),
            autocorrect: self.autocorrect,
            username: self.username,
            lang: self.lang,
            method: self.method,
        }
    }

    pub fn autocorrect(self, autocorrect: bool) -> (r: Self)
        ensures
            r.autocorrect == Some(autocorrect),
            r.artist == self.artist,
            r.album == self.album,
            r.mbid == self.mbid,
            r.username == self.username,
            r.lang == self.lang,
            r.lastfm == self.lastfm,
            r.method == self.method,
    {
        AlbumGetInfo {
            lastfm: self.lastfm,
            artist: self.artist,
            album: self.album,
            mbid: self.mbid,
            autocorrect: Some(autocorrect),
            username: self.username,
            lang: self.lang,
            method: self.method,
        }
    }

    pub fn username(self, username: &str) -> (r: Self)
        ensures
            r.username matches Some(v) && v@ == username@,
            r.artist == self.artist,
            r.album == self.album,
            r.mbid == self.mbid,
            r.autocorrect == self.autocorrect,
            r.lang == self.lang,
            r.lastfm == self.lastfm,
            r.method == self.method,
    {
        AlbumGetInfo {
            lastfm: self.lastfm,
            artist: self.artist,
            album: self.album,
            mbid: self.mbid,
            autocorrect: self.autocorrect,
            username: Some(username.to_owned()),
            lang: self.lang,
            method: self.method,
        }
    }

    pub fn lang(self, lang: &str) -> (r: Self)
        ensures
            r.lang matches Some(v) && v@ == lang@,
            r.artist == self.artist,
            r.album == self.album,
            r.mbid == self.mbid,
            r.autocorrect == self.autocorrect,
            r.username == self.username,
            r.lastfm == self.lastfm,
            r.method == self.method,
    {
        AlbumGetInfo {
            lastfm: self.lastfm,
            artist: self.artist,
            album: self.album,
            mbid: self.mbid,
            autocorrect: self.autocorrect,
            username: self.username,
            lang: Some(lang.to_owned()),
            method: self.method,
        }
    }

    /// The per-operation invariants checked before dispatch.
    pub open spec fn valid(&self) -> bool {
        &&& self.mbid is Some || (self.artist is Some && self.album is Some)
    }

    /// The fields this request contributes to the wire.
    pub open spec fn param_map(&self) -> Map<Seq<char>, Seq<char>> {
        opt_insert_bool(opt_insert(opt_insert(opt_insert(opt_insert(opt_insert(Map::empty(), "artist"@, self.artist), "album"@, self.album), "mbid"@, self.mbid), "username"@, self.username), "lang"@, self.lang), "autocorrect"@, self.autocorrect)
    }

    /// Validate the fields, drain them into a parameter set, and assemble
    /// the dispatched call.
    pub fn prepare(self) -> (r: Result<PreparedRequest, LastfmError>)
        ensures
            !self.valid() ==> (r matches Err(e) && e matches LastfmError::Generic(_)),
            (self.mbid is None && (self.artist is None || self.album is None)) ==> (r matches Err(e)
                && e matches LastfmError::Generic(m) && m@ == "Either 'mbid' or both 'artist' and 'album' must be provided."@),
            self.valid() && self.method.requires_auth_spec() && self.lastfm.sk is None ==> (
            r matches Err(e) && e matches LastfmError::Generic(_)),
            self.valid() && !(self.method.requires_auth_spec() && self.lastfm.sk is None) ==> (
            r matches Ok(p) && p.params.wf() && p.verb == HttpVerb::Get && p.params@
                == prepared_params(
                self.param_map(),
                self.method,
                self.lastfm.api_key@,
                self.lastfm.sk_view(),
                self.lastfm.api_secret@,
            )),
    {
        if self.mbid.is_none() && (self.artist.is_none() || self.album.is_none()) {
            return Err(LastfmError::Generic("Either 'mbid' or both 'artist' and 'album' must be provided.".to_owned()));
        }
        let AlbumGetInfo { lastfm, artist, album, mbid, autocorrect, username, lang, method } = self;
        let autocorrect_value = match autocorrect {
            Some(v) => Some(bool_to_str(v)),
            None => None,
        };
        let params = ParameterBuilder::new()
            .add_optional("artist", artist)
            .add_optional("album", album)
            .add_optional("mbid", mbid)
            .add_optional("username", username)
            .add_optional("lang", lang)
            .add_optional("autocorrect", autocorrect_value)
            .build();
        lastfm.prepare_request(&method, params, HttpVerb::Get)
    }
}

/// Look up a user's tags on an album.
#[derive(Debug)]
pub struct AlbumGetTags<'a> {
    pub lastfm: &'a Lastfm,
    pub artist: Option<String>,
    pub album: Option<String>,
    pub mbid: Option<String>,
    pub user: Option<String>,
    pub autocorrect: Option<bool>,
    pub method: LastfmMethod,
}

impl<'a> AlbumGetTags<'a> {
    pub fn new(lastfm: &'a Lastfm) -> (r: Self)
        ensures
            r.lastfm == lastfm,
            r.artist is None,
            r.album is None,
            r.mbid is None,
            r.user is None,
            r.autocorrect == Some(false),
            r.method is AlbumGetTags,
    {
        AlbumGetTags {
            lastfm,
            artist: None,
            album: None,
            mbid: None,
            user: None,
            autocorrect: Some(false),
            method: LastfmMethod::AlbumGetTags,
        }
    }

    pub fn artist(self, artist: &str) -> (r: Self)
        ensures
            r.artist matches Some(v) && v@ == artist@,
            r.album == self.album,
            r.mbid == self.mbid,
            r.user == self.user,
            r.autocorrect == self.autocorrect,
            r.lastfm == self.lastfm,
            r.method == self.method,
    {
        AlbumGetTags {
            lastfm: self.lastfm,
            artist: Some(artist.to_owned()),
            album: self.album,
            mbid: self.mbid,
            user: self.user,
            autocorrect: self.autocorrect,
            method: self.method,
        }
    }

    pub fn album(self, album: &str) -> (r: Self)
        ensures
            r.album matches Some(v) && v@ == album@,
            r.artist == self.artist,
            r.mbid == self.mbid,
            r.user == self.user,
            r.autocorrect == self.autocorrect,
            r.lastfm == self.lastfm,
            r.method == self.method,
    {
        AlbumGetTags {
            lastfm: self.lastfm,
            artist: self.artist,
            album: Some(album.to_owned()),
            mbid: self.mbid,
            user: self.user,
            autocorrect: self.autocorrect,
            method: self.method,
        }
    }

    pub fn mbid(self, mbid: &str) -> (r: Self)
        ensures
            r.mbid matches Some(v) && v@ == mbid@,
            r.artist == self.artist,
            r.album == self.album,
            r.user == self.user,
            r.autocorrect == self.autocorrect,
            r.lastfm == self.lastfm,
            r.method == self.method,
    {
        AlbumGetTags {
            lastfm: self.lastfm,
            artist: self.artist,
            album: self.album,
            mbid: Some(mbid.to_owned()),
            user: self.user,
            autocorrect: self.autocorrect,
            method: self.method,
        }
    }

    pub fn user(self, user: &str) -> (r: Self)
        ensures
            r.user matches Some(v) && v@ == user@,
            r.artist == self.artist,
            r.album == self.album,
            r.mbid == self.mbid,
            r.autocorrect == self.autocorrect,
            r.lastfm == self.lastfm,
            r.method == self.method,
    {
        AlbumGetTags {
            lastfm: self.lastfm,
            artist: self.artist,
            album: self.album,
            mbid: self.mbid,
            user: Some(user.to_owned()),
            autocorrect: self.autocorrect,
            method: self.method,
        }
    }

    pub fn autocorrect(self, autocorrect: bool) -> (r: Self)
        ensures
            r.autocorrect == Some(autocorrect),
            r.artist == self.artist,
            r.album == self.album,
            r.mbid == self.mbid,
            r.user == self.user,
            r.lastfm == self.lastfm,
            r.method == self.method,
    {
        AlbumGetTags {
            lastfm: self.lastfm,
            artist: self.artist,
            album: self.album,
            mbid: self.mbid,
            user: self.user,
            autocorrect: Some(autocorrect),
            method: self.method,
        }
    }

    /// The per-operation invariants checked before dispatch.
    pub open spec fn valid(&self) -> bool {
        &&& self.mbid is Some || (self.artist is Some && self.album is Some)
    }

    /// The fields this request contributes to the wire.
    pub open spec fn param_map(&self) -> Map<Seq<char>, Seq<char>> {
        opt_insert_bool(opt_insert(opt_insert(opt_insert(opt_insert(Map::empty(), "artist"@, self.artist), "album"@, self.album), "mbid"@, self.mbid), "user"@, self.user), "autocorrect"@, self.autocorrect)
    }

    /// Validate the fields, drain them into a parameter set, and assemble
    /// the dispatched call.
    pub fn prepare(self) -> (r: Result<PreparedRequest, LastfmError>)
        ensures
            !self.valid() ==> (r matches Err(e) && e matches LastfmError::Generic(_)),
            (self.mbid is None && (self.artist is None || self.album is None)) ==> (r matches Err(e)
                && e matches LastfmError::Generic(m) && m@ == "Either 'mbid' or both 'artist' and 'album' must be provided."@),
            self.valid() && self.method.requires_auth_spec() && self.lastfm.sk is None ==> (
            r matches Err(e) && e matches LastfmError::Generic(_)),
            self.valid() && !(self.method.requires_auth_spec() && self.lastfm.sk is None) ==> (
            r matches Ok(p) && p.params.wf() && p.verb == HttpVerb::Get && p.params@
                == prepared_params(
                self.param_map(),
                self.method,
                self.lastfm.api_key@,
                self.lastfm.sk_view(),
                self.lastfm.api_secret@,
            )),
    {
        if self.mbid.is_none() && (self.artist.is_none() || self.album.is_none()) {
            return Err(LastfmError::Generic("Either 'mbid' or both 'artist' and 'album' must be provided.".to_owned()));
        }
        let AlbumGetTags { lastfm, artist, album, mbid, user, autocorrect, method } = self;
        let autocorrect_value = match autocorrect {
            Some(v) => Some(bool_to_str(v)),
            None => None,
        };
        let params = ParameterBuilder::new()
            .add_optional("artist", artist)
            .add_optional("album", album)
            .add_optional("mbid", mbid)
            .add_optional("user", user)
            .add_optional("autocorrect", autocorrect_value)
            .build();
        lastfm.prepare_request(&method, params, HttpVerb::Get)
    }
}

/// Look up an album's top tags.
#[derive(Debug)]
pub struct AlbumGetTopTags<'a> {
    pub lastfm: &'a Lastfm,
    pub artist: Option<String>,
    pub album: Option<String>,
    pub mbid: Option<String>,
    pub autocorrect: Option<bool>,
    pub method: LastfmMethod,
}

impl<'a> AlbumGetTopTags<'a> {
    pub fn new(lastfm: &'a Lastfm) -> (r: Self)
        ensures
            r.lastfm == lastfm,
            r.artist is None,
            r.album is None,
            r.mbid is None,
            r.autocorrect == Some(false),
            r.method is AlbumGetTopTags,
    {
        AlbumGetTopTags {
            lastfm,
            artist: None,
            album: None,
            mbid: None,
            autocorrect: Some(false),
            method: LastfmMethod::AlbumGetTopTags,
        }
    }

    pub fn artist(self, artist: &str) -> (r: Self)
        ensures
            r.artist matches Some(v) && v@ == artist@,
            r.album == self.album,
            r.mbid == self.mbid,
            r.autocorrect == self.autocorrect,
            r.lastfm == self.lastfm,
            r.method == self.method,
    {
        AlbumGetTopTags {
            lastfm: self.lastfm,
            artist: Some(artist.to_owned()),
            album: self.album,
            mbid: self.mbid,
            autocorrect: self.autocorrect,
            method: self.method,
        }
    }

    pub fn album(self, album: &str) -> (r: Self)
        ensures
            r.album matches Some(v) && v@ == album@,
            r.artist == self.artist,
            r.mbid == self.mbid,
            r.autocorrect == self.autocorrect,
            r.lastfm == self.lastfm,
            r.method == self.method,
    {
        AlbumGetTopTags {
            lastfm: self.lastfm,
            artist: self.artist,
            album: Some(album.to_owned()),
            mbid: self.mbid,
            autocorrect: self.autocorrect,
            method: self.method,
        }
    }

    pub fn mbid(self, mbid: &str) -> (r: Self)
        ensures
            r.mbid matches Some(v) && v@ == mbid@,
            r.artist == self.artist,
            r.album == self.album,
            r.autocorrect == self.autocorrect,
            r.lastfm == self.lastfm,
            r.method == self.method,
    {
        AlbumGetTopTags {
            lastfm: self.lastfm,
            artist: self.artist,
            album: self.album,
            mbid: Some(mbid.to_owned()),
            autocorrect: self.autocorrect,
            method: self.method,
        }
    }

    pub fn autocorrect(self, autocorrect: bool) -> (r: Self)
        ensures
            r.autocorrect == Some(autocorrect),
            r.artist == self.artist,
            r.album == self.album,
            r.mbid == self.mbid,
            r.lastfm == self.lastfm,
            r.method == self.method,
    {
        AlbumGetTopTags {
            lastfm: self.lastfm,
            artist: self.artist,
            album: self.album,
            mbid: self.mbid,
            autocorrect: Some(autocorrect),
            method: self.method,
        }
    }

    /// The per-operation invariants checked before dispatch.
    pub open spec fn valid(&self) -> bool {
        &&& self.mbid is Some || (self.artist is Some && self.album is Some)
    }

    /// The fields this request contributes to the wire.
    pub open spec fn param_map(&self) -> Map<Seq<char>, Seq<char>> {
        opt_insert_bool(opt_insert(opt_insert(opt_insert(Map::empty(), "artist"@, self.artist), "album"@, self.album), "mbid"@, self.mbid), "autocorrect"@, self.autocorrect)
    }

    /// Validate the fields, drain them into a parameter set, and assemble
    /// the dispatched call.
    pub fn prepare(self) -> (r: Result<PreparedRequest, LastfmError>)
        ensures
            !self.valid() ==> (r matches Err(e) && e matches LastfmError::Generic(_)),
            (self.mbid is None && (self.artist is None || self.album is None)) ==> (r matches Err(e)
                && e matches LastfmError::Generic(m) && m@ == "Either 'mbid' or both 'artist' and 'album' must be provided."@),
            self.valid() && self.method.requires_auth_spec() && self.lastfm.sk is None ==> (
            r matches Err(e) && e matches LastfmError::Generic(_)),
            self.valid() && !(self.method.requires_auth_spec() && self.lastfm.sk is None) ==> (
            r matches Ok(p) && p.params.wf() && p.verb == HttpVerb::Get && p.params@
                == prepared_params(
                self.param_map(),
                self.method,
                self.lastfm.api_key@,
                self.lastfm.sk_view(),
                self.lastfm.api_secret@,
            )),
    {
        if self.mbid.is_none() && (self.artist.is_none() || self.album.is_none()) {
            return Err(LastfmError::Generic("Either 'mbid' or both 'artist' and 'album' must be provided.".to_owned()));
        }
        let AlbumGetTopTags { lastfm, artist, album, mbid, autocorrect, method } = self;
        let autocorrect_value = match autocorrect {
            Some(v) => Some(bool_to_str(v)),
            None => None,
        };
        let params = ParameterBuilder::new()
            .add_optional("artist", artist)
            .add_optional("album", album)
            .add_optional("mbid", mbid)
            .add_optional("autocorrect", autocorrect_value)
            .build();
        lastfm.prepare_request(&method, params, HttpVerb::Get)
    }
}

/// Remove exactly one tag from an album; authenticated.
#[derive(Debug)]
pub struct AlbumRemoveTag<'a> {
    pub lastfm: &'a Lastfm,
    pub artist: Option<String>,
    pub album: Option<String>,
    pub tag: Option<String>,
    pub method: LastfmMethod,
}

impl<'a> AlbumRemoveTag<'a> {
    pub fn new(lastfm: &'a Lastfm) -> (r: Self)
        ensures
            r.lastfm == lastfm,
            r.artist is None,
            r.album is None,
            r.tag is None,
            r.method is AlbumRemoveTag,
    {
        AlbumRemoveTag {
            lastfm,
            artist: None,
            album: None,
            tag: None,
            method: LastfmMethod::AlbumRemoveTag,
        }
    }

    pub fn artist(self, artist: &str) -> (r: Self)
        ensures
            r.artist matches Some(v) && v@ == artist@,
            r.album == self.album,
            r.tag == self.tag,
            r.lastfm == self.lastfm,
            r.method == self.method,
    {
        AlbumRemoveTag {
            lastfm: self.lastfm,
            artist: Some(artist.to_owned()),
            album: self.album,
            tag: self.tag,
            method: self.method,
        }
    }

    pub fn album(self, album: &str) -> (r: Self)
        ensures
            r.album matches Some(v) && v@ == album@,
            r.artist == self.artist,
            r.tag == self.tag,
            r.lastfm == self.lastfm,
            r.method == self.method,
    {
        AlbumRemoveTag {
            lastfm: self.lastfm,
            artist: self.artist,
            album: Some(album.to_owned()),
            tag: self.tag,
            method: self.method,
        }
    }

    pub fn tag(self, tag: &str) -> (r: Self)
        ensures
            r.tag matches Some(v) && v@ == tag@,
            r.artist == self.artist,
            r.album == self.album,
            r.lastfm == self.lastfm,
            r.method == self.method,
    {
        AlbumRemoveTag {
            lastfm: self.lastfm,
            artist: self.artist,
            album: self.album,
            tag: Some(tag.to_owned()),
            method: self.method,
        }
    }

    /// The per-operation invariants checked before dispatch.
    pub open spec fn valid(&self) -> bool {
        &&& self.artist is Some
        &&& self.album is Some
        &&& self.tag is Some
        &&& tag_count(self.tag->Some_0@) == 1
    }

    /// The fields this request contributes to the wire.
    pub open spec fn param_map(&self) -> Map<Seq<char>, Seq<char>> {
        opt_insert(opt_insert(opt_insert(Map::empty(), "artist"@, self.artist), "album"@, self.album), "tag"@, self.tag)
    }

    /// Validate the fields, drain them into a parameter set, and assemble
    /// the dispatched call.
    pub fn prepare(self) -> (r: Result<PreparedRequest, LastfmError>)
        ensures
            !self.valid() ==> (r matches Err(e) && e matches LastfmError::Generic(_)),
            (self.artist is None) ==> (r matches Err(e)
                && e matches LastfmError::Generic(m) && m@ == "Field 'artist' is required."@),
            !(self.artist is None) && (self.album is None) ==> (r matches Err(e)
                && e matches LastfmError::Generic(m) && m@ == "Field 'album' is required."@),
            !(self.artist is None) && !(self.album is None) && (self.tag is None) ==> (r matches Err(e)
                && e matches LastfmError::Generic(m) && m@ == "Field 'tags' is required."@),
            !(self.artist is None) && !(self.album is None) && !(self.tag is None) && (tag_count(self.tag->Some_0@) != 1) ==> (r matches Err(e)
                && e matches LastfmError::Generic(m) && m@ == "Only 1 tag is allowed to remove at a time"@),
            self.valid() && self.method.requires_auth_spec() && self.lastfm.sk is None ==> (
            r matches Err(e) && e matches LastfmError::Generic(_)),
            self.valid() && !(self.method.requires_auth_spec() && self.lastfm.sk is None) ==> (
            r matches Ok(p) && p.params.wf() && p.verb == HttpVerb::Post && p.params@
                == prepared_params(
                self.param_map(),
                self.method,
                self.lastfm.api_key@,
                self.lastfm.sk_view(),
                self.lastfm.api_secret@,
            )),
    {
        if self.artist.is_none() {
            return Err(LastfmError::Generic("Field 'artist' is required.".to_owned()));
        }
        if self.album.is_none() {
            return Err(LastfmError::Generic("Field 'album' is required.".to_owned()));
        }
        if self.tag.is_none() {
            return Err(LastfmError::Generic("Field 'tags' is required.".to_owned()));
        }
        if count_commas(self.tag.as_ref().unwrap().as_str()) != 0 {
            return Err(LastfmError::Generic("Only 1 tag is allowed to remove at a time".to_owned()));
        }
        let AlbumRemoveTag { lastfm, artist, album, tag, method } = self;
        let params = ParameterBuilder::new()
            .add_optional("artist", artist)
            .add_optional("album", album)
            .add_optional("tag", tag)
            .build();
        lastfm.prepare_request(&method, params, HttpVerb::Post)
    }
}

/// Search albums by name.
#[derive(Debug)]
pub struct AlbumSearch<'a> {
    pub lastfm: &'a Lastfm,
    pub album: Option<String>,
    pub limit: Option<i64>,
    pub page: Option<i64>,
    pub method: LastfmMethod,
}

impl<'a> AlbumSearch<'a> {
    pub fn new(lastfm: &'a Lastfm) -> (r: Self)
        ensures
            r.lastfm == lastfm,
            r.album is None,
            r.limit is None,
            r.page is None,
            r.method is AlbumSearch,
    {
        AlbumSearch {
            lastfm,
            album: None,
            limit: None,
            page: None,
            method: LastfmMethod::AlbumSearch,
        }
    }

    pub fn album(self, album: &str) -> (r: Self)
        ensures
            r.album matches Some(v) && v@ == album@,
            r.limit == self.limit,
            r.page == self.page,
            r.lastfm == self.lastfm,
            r.method == self.method,
    {
        AlbumSearch {
            lastfm: self.lastfm,
            album: Some(album.to_owned()),
            limit: self.limit,
            page: self.page,
            method: self.method,
        }
    }

    pub fn limit(self, limit: i64) -> (r: Self)
        ensures
            r.limit == Some(limit),
            r.album == self.album,
            r.page == self.page,
            r.lastfm == self.lastfm,
            r.method == self.method,
    {
        AlbumSearch {
            lastfm: self.lastfm,
            album: self.album,
            limit: Some(limit),
            page: self.page,
            method: self.method,
        }
    }

    pub fn page(self, page: i64) -> (r: Self)
        ensures
            r.page == Some(page),
            r.album == self.album,
            r.limit == self.limit,
            r.lastfm == self.lastfm,
            r.method == self.method,
    {
        AlbumSearch {
            lastfm: self.lastfm,
            album: self.album,
            limit: self.limit,
            page: Some(page),
            method: self.method,
        }
    }

    /// The per-operation invariants checked before dispatch.
    pub open spec fn valid(&self) -> bool {
        &&& self.album is Some && self.album->Some_0@.len() > 0
    }

    /// The fields this request contributes to the wire.
    pub open spec fn param_map(&self) -> Map<Seq<char>, Seq<char>> {
        opt_insert_i64(opt_insert_i64(opt_insert(Map::empty(), "album"@, self.album), "limit"@, self.limit), "page"@, self.page)
    }

    /// Validate the fields, drain them into a parameter set, and assemble
    /// the dispatched call.
    pub fn prepare(self) -> (r: Result<PreparedRequest, LastfmError>)
        ensures
            !self.valid() ==> (r matches Err(e) && e matches LastfmError::Generic(_)),
            (self.album is None || self.album->Some_0@.len() == 0) ==> (r matches Err(e)
                && e matches LastfmError::Generic(m) && m@ == "The album name is required."@),
            self.valid() && self.method.requires_auth_spec() && self.lastfm.sk is None ==> (
            r matches Err(e) && e matches LastfmError::Generic(_)),
            self.valid() && !(self.method.requires_auth_spec() && self.lastfm.sk is None) ==> (
            r matches Ok(p) && p.params.wf() && p.verb == HttpVerb::Get && p.params@
                == prepared_params(
                self.param_map(),
                self.method,
                self.lastfm.api_key@,
                self.lastfm.sk_view(),
                self.lastfm.api_secret@,
            )),
    {
        match &self.album {
            Some(v) => {
                if v.as_str().is_empty() {
                    return Err(LastfmError::Generic("The album name is required.".to_owned()));
                }
            },
            None => {
                return Err(LastfmError::Generic("The album name is required.".to_owned()));
            },
        }
        let AlbumSearch { lastfm, album, limit, page, method } = self;
        let limit_value = match limit {
            Some(n) => Some(i64_to_dec(n)),
            None => None,
        };
        let page_value = match page {
            Some(n) => Some(i64_to_dec(n)),
            None => None,
        };
        let params = ParameterBuilder::new()
            .add_optional("album", album)
            .add_optional("limit", limit_value)
            .add_optional("page", page_value)
            .build();
        lastfm.prepare_request(&method, params, HttpVerb::Get)
    }
}

} // verus!
