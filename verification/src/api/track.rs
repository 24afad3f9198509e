//! Track operations: lookups, search, tagging, loving, and scrobbling.

use vstd::prelude::*;

use crate::api::{count_commas, opt_insert, opt_insert_bool, opt_insert_i64, opt_insert_u64, opt_insert_u8, tag_count};
use crate::catalog::LastfmMethod;
use crate::client::Lastfm;
use crate::dispatch::{prepared_params, HttpVerb, PreparedRequest};
use crate::error::LastfmError;
use crate::fmtnum::{bool_to_str, i64_to_dec, u64_to_dec};
use crate::params::ParameterBuilder;

verus! {

/// Track-related operations of a client context.
#[derive(Debug)]
pub struct Track<'a> {
    pub lastfm: &'a Lastfm,
}

impl<'a> Track<'a> {
    pub fn new(lastfm: &'a Lastfm) -> (r: Self)
        ensures
            r.lastfm == lastfm,
    {
        Track { lastfm }
    }

    /// A fresh `TrackAddTags` request.
    pub fn add_tags(&mut self) -> (r: TrackAddTags<'a>)
        ensures
            r.lastfm == old(self).lastfm,
            r.artist is None,
            r.tags is None,
            r.method is TrackAddTags,
    {
        TrackAddTags::new(self.lastfm)
    }

    /// A fresh `TrackGetCorrection` request.
    pub fn get_correction(&mut self) -> (r: TrackGetCorrection<'a>)
        ensures
            r.lastfm == old(self).lastfm,
            r.artist is None,
            r.tags is None,
            r.method is TrackGetCorrection,
    {
        TrackGetCorrection::new(self.lastfm)
    }

    /// A fresh `TrackGetTags` request.
    pub fn get_tags(&mut self) -> (r: TrackGetTags<'a>)
        ensures
            r.lastfm == old(self).lastfm,
            r.artist is None,
            r.mbid is None,
            r.user is None,
            r.autocorrect == Some(false),
            r.method is TrackGetTags,
    {
        TrackGetTags::new(self.lastfm)
    }

    /// A fresh `TrackGetTopTags` request.
    pub fn get_top_tags(&mut self) -> (r: TrackGetTopTags<'a>)
        ensures
            r.lastfm == old(self).lastfm,
            r.artist is None,
            r.track is None,
            r.mbid is None,
            r.autocorrect == Some(false),
            r.method is TrackGetTopTags,
    {
        TrackGetTopTags::new(self.lastfm)
    }

    /// A fresh `TrackLove` request.
    pub fn love(&mut self) -> (r: TrackLove<'a>)
        ensures
            r.lastfm == old(self).lastfm,
            r.artist is None,
            r.track is None,
            r.method is TrackLove,
    {
        TrackLove::new(self.lastfm)
    }

    /// A fresh `TrackScrobble` request.
    pub fn scrobble(&mut self) -> (r: TrackScrobble<'a>)
        ensures
            r.lastfm == old(self).lastfm,
            r.artist is None,
            r.track is None,
            r.timestamp is None,
            r.album is None,
            r.context is None,
            r.stream_id is None,
            r.chosen_by_user is None,
            r.track_number is None,
            r.mbid is None,
            r.album_artist is None,
            r.duration is None,
            r.method is TrackScrobble,
    {
        TrackScrobble::new(self.lastfm)
    }

    /// A fresh `TrackSearch` request.
    pub fn search(&mut self) -> (r: TrackSearch<'a>)
        ensures
            r.lastfm == old(self).lastfm,
            r.artist is None,
            r.track is None,
            r.limit is None,
            r.page is None,
            r.method is TrackSearch,
    {
        TrackSearch::new(self.lastfm)
    }

    /// A fresh `TrackUpdateNowPlaying` request.
    pub fn update_now_playing(&mut self) -> (r: TrackUpdateNowPlaying<'a>)
        ensures
            r.lastfm == old(self).lastfm,
            r.artist is None,
            r.track is None,
            r.album is None,
            r.track_number is None,
            r.context is None,
            r.mbid is None,
            r.duration is None,
            r.album_artist is None,
            r.method is TrackUpdateNowPlaying,
    {
        TrackUpdateNowPlaying::new(self.lastfm)
    }

}

/// Tag a track with up to ten comma-delimited tags; authenticated.
#[derive(Debug)]
pub struct TrackAddTags<'a> {
    pub lastfm: &'a Lastfm,
    pub artist: Option<String>,
    pub tags: Option<String>,
    pub method: LastfmMethod,
}

impl<'a> TrackAddTags<'a> {
    pub fn new(lastfm: &'a Lastfm) -> (r: Self)
        ensures
            r.lastfm == lastfm,
            r.artist is None,
            r.tags is None,
            r.method is TrackAddTags,
    {
        TrackAddTags {
            lastfm,
            artist: None,
            tags: None,
            method: LastfmMethod::TrackAddTags,
        }
    }

    pub fn artist(self, artist: &str) -> (r: Self)
        ensures
            r.artist matches Some(v) && v@ == artist@,
            r.tags == self.tags,
            r.lastfm == self.lastfm,
            r.method == self.method,
    {
        TrackAddTags {
            lastfm: self.lastfm,
            artist: Some(artist.to_owned()),
            tags: self.tags,
            method: self.method,
        }
    }

    pub fn tags(self, tags: &str) -> (r: Self)
        ensures
            r.tags matches Some(v) && v@ == tags@,
            r.artist == self.artist,
            r.lastfm == self.lastfm,
            r.method == self.method,
    {
        TrackAddTags {
            lastfm: self.lastfm,
            artist: self.artist,
            tags: Some(tags.to_owned()),
            method: self.method,
        }
    }

    /// The per-operation invariants checked before dispatch.
    pub open spec fn valid(&self) -> bool {
        &&& self.artist is Some
        &&& self.tags is Some
        &&& tag_count(self.tags->Some_0@) <= 10
    }

    /// The fields this request contributes to the wire.
    pub open spec fn param_map(&self) -> Map<Seq<char>, Seq<char>> {
        opt_insert(opt_insert(Map::empty(), "artist"@, self.artist), "tags"@, self.tags)
    }

    /// Validate the fields, drain them into a parameter set, and assemble
    /// the dispatched call.
    pub fn prepare(self) -> (r: Result<PreparedRequest, LastfmError>)
        ensures
            !self.valid() ==> (r matches Err(e) && e matches LastfmError::Generic(_)),
            (self.artist is None) ==> (r matches Err(e)
                && e matches LastfmError::Generic(m) && m@ == "Field 'artist' is required."@),
            !(self.artist is None) && (self.tags is None) ==> (r matches Err(e)
                && e matches LastfmError::Generic(m) && m@ == "Field 'tags' is required."@),
            !(self.artist is None) && !(self.tags is None) && (tag_count(self.tags->Some_0@) > 10) ==> (r matches Err(e)
                && e matches LastfmError::Generic(m) && m@ == "Cannot exceed 10 tags."@),
            self.valid() && self.method.requires_auth_spec() && self.lastfm.sk is None ==> (
            r matches Err(e) && e matches LastfmError::Generic(_)),
            self.valid() && !(self.method.requires_auth_spec() && self.lastfm.sk is None) ==> (
            r matches Ok(p) && p.params.wf() && p.verb == HttpVerb::Post && p.params@
                == prepared_params(
                self.param_map(),
                self.method,
                self.lastfm.api_key@,
                self.lastfm.sk_view(),
                self.lastfm.api_secret@,
            )),
    {
        if self.artist.is_none() {
            return Err(LastfmError::Generic("Field 'artist' is required.".to_owned()));
        }
        if self.tags.is_none() {
            return Err(LastfmError::Generic("Field 'tags' is required.".to_owned()));
        }
        if count_commas(self.tags.as_ref().unwrap().as_str()) > 9 {
            return Err(LastfmError::Generic("Cannot exceed 10 tags.".to_owned()));
        }
        let TrackAddTags { lastfm, artist, tags, method } = self;
        let params = ParameterBuilder::new()
            .add_optional("artist", artist)
            .add_optional("tags", tags)
            .build();
        lastfm.prepare_request(&method, params, HttpVerb::Post)
    }
}

/// Look up the canonical correction of a track.
#[derive(Debug)]
pub struct TrackGetCorrection<'a> {
    pub lastfm: &'a Lastfm,
    pub artist: Option<String>,
    pub tags: Option<String>,
    pub method: LastfmMethod,
}

impl<'a> TrackGetCorrection<'a> {
    pub fn new(lastfm: &'a Lastfm) -> (r: Self)
        ensures
            r.lastfm == lastfm,
            r.artist is None,
            r.tags is None,
            r.method is TrackGetCorrection,
    {
        TrackGetCorrection {
            lastfm,
            artist: None,
            tags: None,
            method: LastfmMethod::TrackGetCorrection,
        }
    }

    pub fn artist(self, artist: &str) -> (r: Self)
        ensures
            r.artist matches Some(v) && v@ == artist@,
            r.tags == self.tags,
            r.lastfm == self.lastfm,
            r.method == self.method,
    {
        TrackGetCorrection {
            lastfm: self.lastfm,
            artist: Some(artist.to_owned()),
            tags: self.tags,
            method: self.method,
        }
    }

    pub fn tags(self, tags: &str) -> (r: Self)
        ensures
            r.tags matches Some(v) && v@ == tags@,
            r.artist == self.artist,
            r.lastfm == self.lastfm,
            r.method == self.method,
    {
        TrackGetCorrection {
            lastfm: self.lastfm,
            artist: self.artist,
            tags: Some(tags.to_owned()),
            method: self.method,
        }
    }

    /// The per-operation invariants checked before dispatch.
    pub open spec fn valid(&self) -> bool {
        &&& self.artist is Some
        &&& self.tags is Some
        &&& tag_count(self.tags->Some_0@) <= 10
    }

    /// The fields this request contributes to the wire.
    pub open spec fn param_map(&self) -> Map<Seq<char>, Seq<char>> {
        opt_insert(opt_insert(Map::empty(), "artist"@, self.artist), "tags"@, self.tags)
    }

    /// Validate the fields, drain them into a parameter set, and assemble
    /// the dispatched call.
    pub fn prepare(self) -> (r: Result<PreparedRequest, LastfmError>)
        ensures
            !self.valid() ==> (r matches Err(e) && e matches LastfmError::Generic(_)),
            (self.artist is None) ==> (r matches Err(e)
                && e matches LastfmError::Generic(m) && m@ == "Field 'artist' is required."@),
            !(self.artist is None) && (self.tags is None) ==> (r matches Err(e)
                && e matches LastfmError::Generic(m) && m@ == "Field 'tags' is required."@),
            !(self.artist is None) && !(self.tags is None) && (tag_count(self.tags->Some_0@) > 10) ==> (r matches Err(e)
                && e matches LastfmError::Generic(m) && m@ == "Cannot exceed 10 tags."@),
            self.valid() && self.method.requires_auth_spec() && self.lastfm.sk is None ==> (
            r matches Err(e) && e matches LastfmError::Generic(_)),
            self.valid() && !(self.method.requires_auth_spec() && self.lastfm.sk is None) ==> (
            r matches Ok(p) && p.params.wf() && p.verb == HttpVerb::Get && p.params@
                == prepared_params(
                self.param_map(),
                self.method,
                self.lastfm.api_key@,
                self.lastfm.sk_view(),
                self.lastfm.api_secret@,
            )),
    {
        if self.artist.is_none() {
            return Err(LastfmError::Generic("Field 'artist' is required.".to_owned()));
        }
        if self.tags.is_none() {
            return Err(LastfmError::Generic("Field 'tags' is required.".to_owned()));
        }
        if count_commas(self.tags.as_ref().unwrap().as_str()) > 9 {
            return Err(LastfmError::Generic("Cannot exceed 10 tags.".to_owned()));
        }
        let TrackGetCorrection { lastfm, artist, tags, method } = self;
        let params = ParameterBuilder::new()
            .add_optional("artist", artist)
            .add_optional("tags", tags)
            .build();
        lastfm.prepare_request(&method, params, HttpVerb::Get)
    }
}

/// Look up a user's tags on a track.
#[derive(Debug)]
pub struct TrackGetTags<'a> {
    pub lastfm: &'a Lastfm,
    pub artist: Option<String>,
    pub mbid: Option<String>,
    pub user: Option<String>,
    pub autocorrect: Option<bool>,
    pub method: LastfmMethod,
}

impl<'a> TrackGetTags<'a> {
    pub fn new(lastfm: &'a Lastfm) -> (r: Self)
        ensures
            r.lastfm == lastfm,
            r.artist is None,
            r.mbid is None,
            r.user is None,
            r.autocorrect == Some(false),
            r.method is TrackGetTags,
    {
        TrackGetTags {
            lastfm,
            artist: None,
            mbid: None,
            user: None,
            autocorrect: Some(false),
            method: LastfmMethod::TrackGetTags,
        }
    }

    pub fn artist(self, artist: &str) -> (r: Self)
        ensures
            r.artist matches Some(v) && v@ == artist@,
            r.mbid == self.mbid,
            r.user == self.user,
            r.autocorrect == self.autocorrect,
            r.lastfm == self.lastfm,
            r.method == self.method,
    {
        TrackGetTags {
            lastfm: self.lastfm,
            artist: Some(artist.to_owned()),
            mbid: self.mbid,
            user: self.user,
            autocorrect: self.autocorrect,
            method: self.method,
        }
    }

    pub fn mbid(self, mbid: &str) -> (r: Self)
        ensures
            r.mbid matches Some(v) && v@ == mbid@,
            r.artist == self.artist,
            r.user == self.user,
            r.autocorrect == self.autocorrect,
            r.lastfm == self.lastfm,
            r.method == self.method,
    {
        TrackGetTags {
            lastfm: self.lastfm,
            artist: self.artist,
            mbid: Some(mbid.to_owned()),
            user: self.user,
            autocorrect: self.autocorrect,
            method: self.method,
        }
    }

    pub fn user(self, user: &str) -> (r: Self)
        ensures
            r.user matches Some(v) && v@ == user@,
            r.artist == self.artist,
            r.mbid == self.mbid,
            r.autocorrect == self.autocorrect,
            r.lastfm == self.lastfm,
            r.method == self.method,
    {
        TrackGetTags {
            lastfm: self.lastfm,
            artist: self.artist,
            mbid: self.mbid,
            user: Some(user.to_owned()),
            autocorrect: self.autocorrect,
            method: self.method,
        }
    }

    pub fn autocorrect(self, autocorrect: bool) -> (r: Self)
        ensures
            r.autocorrect == Some(autocorrect),
            r.artist == self.artist,
            r.mbid == self.mbid,
            r.user == self.user,
            r.lastfm == self.lastfm,
            r.method == self.method,
    {
        TrackGetTags {
            lastfm: self.lastfm,
            artist: self.artist,
            mbid: self.mbid,
            user: self.user,
            autocorrect: Some(autocorrect),
            method: self.method,
        }
    }

    /// The per-operation invariants checked before dispatch.
    pub open spec fn valid(&self) -> bool {
        &&& self.mbid is Some || self.artist is Some
    }

    /// The fields this request contributes to the wire.
    pub open spec fn param_map(&self) -> Map<Seq<char>, Seq<char>> {
        opt_insert_bool(opt_insert(opt_insert(opt_insert(Map::empty(), "artist"@, self.artist), "mbid"@, self.mbid), "user"@, self.user), "autocorrect"@, self.autocorrect)
    }

    /// Validate the fields, drain them into a parameter set, and assemble
    /// the dispatched call.
    pub fn prepare(self) -> (r: Result<PreparedRequest, LastfmError>)
        ensures
            !self.valid() ==> (r matches Err(e) && e matches LastfmError::Generic(_)),
            (self.mbid is None && self.artist is None) ==> (r matches Err(e)
                && e matches LastfmError::Generic(m) && m@ == "Either 'mbid' or 'artist' must be provided."@),
            self.valid() && self.method.requires_auth_spec() && self.lastfm.sk is None ==> (
            r matches Err(e) && e matches LastfmError::Generic(_)),
            self.valid() && !(self.method.requires_auth_spec() && self.lastfm.sk is None) ==> (
            r matches Ok(p) && p.params.wf() && p.verb == HttpVerb::Get && p.params@
                == prepared_params(
                self.param_map(),
                self.method,
                self.lastfm.api_key@,
                self.lastfm.sk_view(),
                self.lastfm.api_secret@,
            )),
    {
        if self.mbid.is_none() && self.artist.is_none() {
            return Err(LastfmError::Generic("Either 'mbid' or 'artist' must be provided.".to_owned()));
        }
        let TrackGetTags { lastfm, artist, mbid, user, autocorrect, method } = self;
        let autocorrect_value = match autocorrect {
            Some(v) => Some(bool_to_str(v)),
            None => None,
        };
        let params = ParameterBuilder::new()
            .add_optional("artist", artist)
            .add_optional("mbid", mbid)
            .add_optional("user", user)
            .add_optional("autocorrect", autocorrect_value)
            .build();
        lastfm.prepare_request(&method, params, HttpVerb::Get)
    }
}

/// Look up a track's top tags.
#[derive(Debug)]
pub struct TrackGetTopTags<'a> {
    pub lastfm: &'a Lastfm,
    pub artist: Option<String>,
    pub track: Option<String>,
    pub mbid: Option<String>,
    pub autocorrect: Option<bool>,
    pub method: LastfmMethod,
}

impl<'a> TrackGetTopTags<'a> {
    pub fn new(lastfm: &'a Lastfm) -> (r: Self)
        ensures
            r.lastfm == lastfm,
            r.artist is None,
            r.track is None,
            r.mbid is None,
            r.autocorrect == Some(false),
            r.method is TrackGetTopTags,
    {
        TrackGetTopTags {
            lastfm,
            artist: None,
            track: None,
            mbid: None,
            autocorrect: Some(false),
            method: LastfmMethod::TrackGetTopTags,
        }
    }

    pub fn artist(self, artist: &str) -> (r: Self)
        ensures
            r.artist matches Some(v) && v@ == artist@,
            r.track == self.track,
            r.mbid == self.mbid,
            r.autocorrect == self.autocorrect,
            r.lastfm == self.lastfm,
            r.method == self.method,
    {
        TrackGetTopTags {
            lastfm: self.lastfm,
            artist: Some(artist.to_owned()),
            track: self.track,
            mbid: self.mbid,
            autocorrect: self.autocorrect,
            method: self.method,
        }
    }

    pub fn track(self, track: &str) -> (r: Self)
        ensures
            r.track matches Some(v) && v@ == track@,
            r.artist == self.artist,
            r.mbid == self.mbid,
            r.autocorrect == self.autocorrect,
            r.lastfm == self.lastfm,
            r.method == self.method,
    {
        TrackGetTopTags {
            lastfm: self.lastfm,
            artist: self.artist,
            track: Some(track.to_owned()),
            mbid: self.mbid,
            autocorrect: self.autocorrect,
            method: self.method,
        }
    }

    pub fn mbid(self, mbid: &str) -> (r: Self)
        ensures
            r.mbid matches Some(v) && v@ == mbid@,
            r.artist == self.artist,
            r.track == self.track,
            r.autocorrect == self.autocorrect,
            r.lastfm == self.lastfm,
            r.method == self.method,
    {
        TrackGetTopTags {
            lastfm: self.lastfm,
            artist: self.artist,
            track: self.track,
            mbid: Some(mbid.to_owned()),
            autocorrect: self.autocorrect,
            method: self.method,
        }
    }

    pub fn autocorrect(self, autocorrect: bool) -> (r: Self)
        ensures
            r.autocorrect == Some(autocorrect),
            r.artist == self.artist,
            r.track == self.track,
            r.mbid == self.mbid,
            r.lastfm == self.lastfm,
            r.method == self.method,
    {
        TrackGetTopTags {
            lastfm: self.lastfm,
            artist: self.artist,
            track: self.track,
            mbid: self.mbid,
            autocorrect: Some(autocorrect),
            method: self.method,
        }
    }

    /// The per-operation invariants checked before dispatch.
    pub open spec fn valid(&self) -> bool {
        &&& self.mbid is Some || self.artist is Some
    }

    /// The fields this request contributes to the wire.
    pub open spec fn param_map(&self) -> Map<Seq<char>, Seq<char>> {
        opt_insert_bool(opt_insert(opt_insert(opt_insert(Map::empty(), "artist"@, self.artist), "track"@, self.track), "mbid"@, self.mbid), "autocorrect"@, self.autocorrect)
    }

    /// Validate the fields, drain them into a parameter set, and assemble
    /// the dispatched call.
    pub fn prepare(self) -> (r: Result<PreparedRequest, LastfmError>)
        ensures
            !self.valid() ==> (r matches Err(e) && e matches LastfmError::Generic(_)),
            (self.mbid is None && self.artist is None) ==> (r matches Err(e)
                && e matches LastfmError::Generic(m) && m@ == "Either 'mbid' or 'artist' must be provided."@),
            self.valid() && self.method.requires_auth_spec() && self.lastfm.sk is None ==> (
            r matches Err(e) && e matches LastfmError::Generic(_)),
            self.valid() && !(self.method.requires_auth_spec() && self.lastfm.sk is None) ==> (
            r matches Ok(p) && p.params.wf() && p.verb == HttpVerb::Get && p.params@
                == prepared_params(
                self.param_map(),
                self.method,
                self.lastfm.api_key@,
                self.lastfm.sk_view(),
                self.lastfm.api_secret@,
            )),
    {
        if self.mbid.is_none() && self.artist.is_none() {
            return Err(LastfmError::Generic("Either 'mbid' or 'artist' must be provided.".to_owned()));
        }
        let TrackGetTopTags { lastfm, artist, track, mbid, autocorrect, method } = self;
        let autocorrect_value = match autocorrect {
            Some(v) => Some(bool_to_str(v)),
            None => None,
        };
        let params = ParameterBuilder::new()
            .add_optional("artist", artist)
            .add_optional("track", track)
            .add_optional("mbid", mbid)
            .add_optional("autocorrect", autocorrect_value)
            .build();
        lastfm.prepare_request(&method, params, HttpVerb::Get)
    }
}

/// Love a track for the authenticated user.
#[derive(Debug)]
pub struct TrackLove<'a> {
    pub lastfm: &'a Lastfm,
    pub artist: Option<String>,
    pub track: Option<String>,
    pub method: LastfmMethod,
}

impl<'a> TrackLove<'a> {
    pub fn new(lastfm: &'a Lastfm) -> (r: Self)
        ensures
            r.lastfm == lastfm,
            r.artist is None,
            r.track is None,
            r.method is TrackLove,
    {
        TrackLove {
            lastfm,
            artist: None,
            track: None,
            method: LastfmMethod::TrackLove,
        }
    }

    pub fn artist(self, artist: &str) -> (r: Self)
        ensures
            r.artist matches Some(v) && v@ == artist@,
            r.track == self.track,
            r.lastfm == self.lastfm,
            r.method == self.method,
    {
        TrackLove {
            lastfm: self.lastfm,
            artist: Some(artist.to_owned()),
            track: self.track,
            method: self.method,
        }
    }

    pub fn track(self, track: &str) -> (r: Self)
        ensures
            r.track matches Some(v) && v@ == track@,
            r.artist == self.artist,
            r.lastfm == self.lastfm,
            r.method == self.method,
    {
        TrackLove {
            lastfm: self.lastfm,
            artist: self.artist,
            track: Some(track.to_owned()),
            method: self.method,
        }
    }

    /// The per-operation invariants checked before dispatch.
    pub open spec fn valid(&self) -> bool {
        &&& self.artist is Some
        &&& self.track is Some
    }

    /// The fields this request contributes to the wire.
    pub open spec fn param_map(&self) -> Map<Seq<char>, Seq<char>> {
        opt_insert(opt_insert(Map::empty(), "artist"@, self.artist), "track"@, self.track)
    }

    /// Validate the fields, drain them into a parameter set, and assemble
    /// the dispatched call.
    pub fn prepare(self) -> (r: Result<PreparedRequest, LastfmError>)
        ensures
            !self.valid() ==> (r matches Err(e) && e matches LastfmError::Generic(_)),
            (self.artist is None) ==> (r matches Err(e)
                && e matches LastfmError::Generic(m) && m@ == "Field 'artist' is required."@),
            !(self.artist is None) && (self.track is None) ==> (r matches Err(e)
                && e matches LastfmError::Generic(m) && m@ == "Field 'track' is required."@),
            self.valid() && self.method.requires_auth_spec() && self.lastfm.sk is None ==> (
            r matches Err(e) && e matches LastfmError::Generic(_)),
            self.valid() && !(self.method.requires_auth_spec() && self.lastfm.sk is None) ==> (
            r matches Ok(p) && p.params.wf() && p.verb == HttpVerb::Post && p.params@
                == prepared_params(
                self.param_map(),
                self.method,
                self.lastfm.api_key@,
                self.lastfm.sk_view(),
                self.lastfm.api_secret@,
            )),
    {
        if self.artist.is_none() {
            return Err(LastfmError::Generic("Field 'artist' is required.".to_owned()));
        }
        if self.track.is_none() {
            return Err(LastfmError::Generic("Field 'track' is required.".to_owned()));
        }
        let TrackLove { lastfm, artist, track, method } = self;
        let params = ParameterBuilder::new()
            .add_optional("artist", artist)
            .add_optional("track", track)
            .build();
        lastfm.prepare_request(&method, params, HttpVerb::Post)
    }
}

/// Record a listened track; authenticated.
#[derive(Debug)]
pub struct TrackScrobble<'a> {
    pub lastfm: &'a Lastfm,
    pub artist: Option<String>,
    pub track: Option<String>,
    pub timestamp: Option<u64>,
    pub album: Option<String>,
    pub context: Option<String>,
    pub stream_id: Option<String>,
    pub chosen_by_user: Option<u8>,
    pub track_number: Option<u8>,
    pub mbid: Option<String>,
    pub album_artist: Option<String>,
    pub duration: Option<u64>,
    pub method: LastfmMethod,
}

impl<'a> TrackScrobble<'a> {
    pub fn new(lastfm: &'a Lastfm) -> (r: Self)
        ensures
            r.lastfm == lastfm,
            r.artist is None,
            r.track is None,
            r.timestamp is None,
            r.album is None,
            r.context is None,
            r.stream_id is None,
            r.chosen_by_user is None,
            r.track_number is None,
            r.mbid is None,
            r.album_artist is None,
            r.duration is None,
            r.method is TrackScrobble,
    {
        TrackScrobble {
            lastfm,
            artist: None,
            track: None,
            timestamp: None,
            album: None,
            context: None,
            stream_id: None,
            chosen_by_user: None,
            track_number: None,
            mbid: None,
            album_artist: None,
            duration: None,
            method: LastfmMethod::TrackScrobble,
        }
    }

    pub fn artist(self, artist: Option<&str>) -> (r: Self)
        ensures
            match artist {
                Some(s) => r.artist matches Some(v) && v@ == s@,
                None => r.artist is None,
            },
            r.track == self.track,
            r.timestamp == self.timestamp,
            r.album == self.album,
            r.context == self.context,
            r.stream_id == self.stream_id,
            r.chosen_by_user == self.chosen_by_user,
            r.track_number == self.track_number,
            r.mbid == self.mbid,
            r.album_artist == self.album_artist,
            r.duration == self.duration,
            r.lastfm == self.lastfm,
            r.method == self.method,
    {
        TrackScrobble {
            lastfm: self.lastfm,
            artist: match artist { Some(s) => Some(s.to_owned()), None => None },
            track: self.track,
            timestamp: self.timestamp,
            album: self.album,
            context: self.context,
            stream_id: self.stream_id,
            chosen_by_user: self.chosen_by_user,
            track_number: self.track_number,
            mbid: self.mbid,
            album_artist: self.album_artist,
            duration: self.duration,
            method: self.method,
        }
    }

    pub fn track(self, track: Option<&str>) -> (r: Self)
        ensures
            match track {
                Some(s) => r.track matches Some(v) && v@ == s@,
                None => r.track is None,
            },
            r.artist == self.artist,
            r.timestamp == self.timestamp,
            r.album == self.album,
            r.context == self.context,
            r.stream_id == self.stream_id,
            r.chosen_by_user == self.chosen_by_user,
            r.track_number == self.track_number,
            r.mbid == self.mbid,
            r.album_artist == self.album_artist,
            r.duration == self.duration,
            r.lastfm == self.lastfm,
            r.method == self.method,
    {
        TrackScrobble {
            lastfm: self.lastfm,
            artist: self.artist,
            track: match track { Some(s) => Some(s.to_owned()), None => None },
            timestamp: self.timestamp,
            album: self.album,
            context: self.context,
            stream_id: self.stream_id,
            chosen_by_user: self.chosen_by_user,
            track_number: self.track_number,
            mbid: self.mbid,
            album_artist: self.album_artist,
            duration: self.duration,
            method: self.method,
        }
    }

    pub fn timestamp(self, timestamp: Option<u64>) -> (r: Self)
        ensures
            r.timestamp == timestamp,
            r.artist == self.artist,
            r.track == self.track,
            r.album == self.album,
            r.context == self.context,
            r.stream_id == self.stream_id,
            r.chosen_by_user == self.chosen_by_user,
            r.track_number == self.track_number,
            r.mbid == self.mbid,
            r.album_artist == self.album_artist,
            r.duration == self.duration,
            r.lastfm == self.lastfm,
            r.method == self.method,
    {
        TrackScrobble {
            lastfm: self.lastfm,
            artist: self.artist,
            track: self.track,
            timestamp: timestamp,
            album: self.album,
            context: self.context,
            stream_id: self.stream_id,
            chosen_by_user: self.chosen_by_user,
            track_number: self.track_number,
            mbid: self.mbid,
            album_artist: self.album_artist,
            duration: self.duration,
            method: self.method,
        }
    }

    pub fn album(self, album: Option<&str>) -> (r: Self)
        ensures
            match album {
                Some(s) => r.album matches Some(v) && v@ == s@,
                None => r.album is None,
            },
            r.artist == self.artist,
            r.track == self.track,
            r.timestamp == self.timestamp,
            r.context == self.context,
            r.stream_id == self.stream_id,
            r.chosen_by_user == self.chosen_by_user,
            r.track_number == self.track_number,
            r.mbid == self.mbid,
            r.album_artist == self.album_artist,
            r.duration == self.duration,
            r.lastfm == self.lastfm,
            r.method == self.method,
    {
        TrackScrobble {
            lastfm: self.lastfm,
            artist: self.artist,
            track: self.track,
            timestamp: self.timestamp,
            album: match album { Some(s) => Some(s.to_owned()), None => None },
            context: self.context,
            stream_id: self.stream_id,
            chosen_by_user: self.chosen_by_user,
            track_number: self.track_number,
            mbid: self.mbid,
            album_artist: self.album_artist,
            duration: self.duration,
            method: self.method,
        }
    }

    pub fn context(self, context: Option<&str>) -> (r: Self)
        ensures
            match context {
                Some(s) => r.context matches Some(v) && v@ == s@,
                None => r.context is None,
            },
            r.artist == self.artist,
            r.track == self.track,
            r.timestamp == self.timestamp,
            r.album == self.album,
            r.stream_id == self.stream_id,
            r.chosen_by_user == self.chosen_by_user,
            r.track_number == self.track_number,
            r.mbid == self.mbid,
            r.album_artist == self.album_artist,
            r.duration == self.duration,
            r.lastfm == self.lastfm,
            r.method == self.method,
    {
        TrackScrobble {
            lastfm: self.lastfm,
            artist: self.artist,
            track: self.track,
            timestamp: self.timestamp,
            album: self.album,
            context: match context { Some(s) => Some(s.to_owned()), None => None },
            stream_id: self.stream_id,
            chosen_by_user: self.chosen_by_user,
            track_number: self.track_number,
            mbid: self.mbid,
            album_artist: self.album_artist,
            duration: self.duration,
            method: self.method,
        }
    }

    pub fn stream_id(self, stream_id: Option<&str>) -> (r: Self)
        ensures
            match stream_id {
                Some(s) => r.stream_id matches Some(v) && v@ == s@,
                None => r.stream_id is None,
            },
            r.artist == self.artist,
            r.track == self.track,
            r.timestamp == self.timestamp,
            r.album == self.album,
            r.context == self.context,
            r.chosen_by_user == self.chosen_by_user,
            r.track_number == self.track_number,
            r.mbid == self.mbid,
            r.album_artist == self.album_artist,
            r.duration == self.duration,
            r.lastfm == self.lastfm,
            r.method == self.method,
    {
        TrackScrobble {
            lastfm: self.lastfm,
            artist: self.artist,
            track: self.track,
            timestamp: self.timestamp,
            album: self.album,
            context: self.context,
            stream_id: match stream_id { Some(s) => Some(s.to_owned()), None => None },
            chosen_by_user: self.chosen_by_user,
            track_number: self.track_number,
            mbid: self.mbid,
            album_artist: self.album_artist,
            duration: self.duration,
            method: self.method,
        }
    }

    pub fn chosen_by_user(self, chosen_by_user: Option<u8>) -> (r: Self)
        ensures
            r.chosen_by_user == chosen_by_user,
            r.artist == self.artist,
            r.track == self.track,
            r.timestamp == self.timestamp,
            r.album == self.album,
            r.context == self.context,
            r.stream_id == self.stream_id,
            r.track_number == self.track_number,
            r.mbid == self.mbid,
            r.album_artist == self.album_artist,
            r.duration == self.duration,
            r.lastfm == self.lastfm,
            r.method == self.method,
    {
        TrackScrobble {
            lastfm: self.lastfm,
            artist: self.artist,
            track: self.track,
            timestamp: self.timestamp,
            album: self.album,
            context: self.context,
            stream_id: self.stream_id,
            chosen_by_user: chosen_by_user,
            track_number: self.track_number,
            mbid: self.mbid,
            album_artist: self.album_artist,
            duration: self.duration,
            method: self.method,
        }
    }

    pub fn track_number(self, track_number: Option<u8>) -> (r: Self)
        ensures
            r.track_number == track_number,
            r.artist == self.artist,
            r.track == self.track,
            r.timestamp == self.timestamp,
            r.album == self.album,
            r.context == self.context,
            r.stream_id == self.stream_id,
            r.chosen_by_user == self.chosen_by_user,
            r.mbid == self.mbid,
            r.album_artist == self.album_artist,
            r.duration == self.duration,
            r.lastfm == self.lastfm,
            r.method == self.method,
    {
        TrackScrobble {
            lastfm: self.lastfm,
            artist: self.artist,
            track: self.track,
            timestamp: self.timestamp,
            album: self.album,
            context: self.context,
            stream_id: self.stream_id,
            chosen_by_user: self.chosen_by_user,
            track_number: track_number,
            mbid: self.mbid,
            album_artist: self.album_artist,
            duration: self.duration,
            method: self.method,
        }
    }

    pub fn mbid(self, mbid: Option<&str>) -> (r: Self)
        ensures
            match mbid {
                Some(s) => r.mbid matches Some(v) && v@ == s@,
                None => r.mbid is None,
            },
            r.artist == self.artist,
            r.track == self.track,
            r.timestamp == self.timestamp,
            r.album == self.album,
            r.context == self.context,
            r.stream_id == self.stream_id,
            r.chosen_by_user == self.chosen_by_user,
            r.track_number == self.track_number,
            r.album_artist == self.album_artist,
            r.duration == self.duration,
            r.lastfm == self.lastfm,
            r.method == self.method,
    {
        TrackScrobble {
            lastfm: self.lastfm,
            artist: self.artist,
            track: self.track,
            timestamp: self.timestamp,
            album: self.album,
            context: self.context,
            stream_id: self.stream_id,
            chosen_by_user: self.chosen_by_user,
            track_number: self.track_number,
            mbid: match mbid { Some(s) => Some(s.to_owned()), None => None },
            album_artist: self.album_artist,
            duration: self.duration,
            method: self.method,
        }
    }

    pub fn album_artist(self, album_artist: Option<&str>) -> (r: Self)
        ensures
            match album_artist {
                Some(s) => r.album_artist matches Some(v) && v@ == s@,
                None => r.album_artist is None,
            },
            r.artist == self.artist,
            r.track == self.track,
            r.timestamp == self.timestamp,
            r.album == self.album,
            r.context == self.context,
            r.stream_id == self.stream_id,
            r.chosen_by_user == self.chosen_by_user,
            r.track_number == self.track_number,
            r.mbid == self.mbid,
            r.duration == self.duration,
            r.lastfm == self.lastfm,
            r.method == self.method,
    {
        TrackScrobble {
            lastfm: self.lastfm,
            artist: self.artist,
            track: self.track,
            timestamp: self.timestamp,
            album: self.album,
            context: self.context,
            stream_id: self.stream_id,
            chosen_by_user: self.chosen_by_user,
            track_number: self.track_number,
            mbid: self.mbid,
            album_artist: match album_artist { Some(s) => Some(s.to_owned()), None => None },
            duration: self.duration,
            method: self.method,
        }
    }

    pub fn duration(self, duration: Option<u64>) -> (r: Self)
        ensures
            r.duration == duration,
            r.artist == self.artist,
            r.track == self.track,
            r.timestamp == self.timestamp,
            r.album == self.album,
            r.context == self.context,
            r.stream_id == self.stream_id,
            r.chosen_by_user == self.chosen_by_user,
            r.track_number == self.track_number,
            r.mbid == self.mbid,
            r.album_artist == self.album_artist,
            r.lastfm == self.lastfm,
            r.method == self.method,
    {
        TrackScrobble {
            lastfm: self.lastfm,
            artist: self.artist,
            track: self.track,
            timestamp: self.timestamp,
            album: self.album,
            context: self.context,
            stream_id: self.stream_id,
            chosen_by_user: self.chosen_by_user,
            track_number: self.track_number,
            mbid: self.mbid,
            album_artist: self.album_artist,
            duration: duration,
            method: self.method,
        }
    }

    /// The per-operation invariants checked before dispatch.
    pub open spec fn valid(&self) -> bool {
        &&& self.artist is Some
        &&& self.track is Some
        &&& self.timestamp is Some
    }

    /// The fields this request contributes to the wire.
    pub open spec fn param_map(&self) -> Map<Seq<char>, Seq<char>> {
        opt_insert_u64(opt_insert(opt_insert(opt_insert_u8(opt_insert_u8(opt_insert(opt_insert(opt_insert(opt_insert_u64(opt_insert(opt_insert(Map::empty(), "artist"@, self.artist), "track"@, self.track), "timestamp"@, self.timestamp), "album"@, self.album), "context"@, self.context), "streamId"@, self.stream_id), "chosenByUser"@, self.chosen_by_user), "trackNumber"@, self.track_number), "mbid"@, self.mbid), "albumArtist"@, self.album_artist), "duration"@, self.duration)
    }

    /// Validate the fields, drain them into a parameter set, and assemble
    /// the dispatched call.
    pub fn prepare(self) -> (r: Result<PreparedRequest, LastfmError>)
        ensures
            !self.valid() ==> (r matches Err(e) && e matches LastfmError::Generic(_)),
            (self.artist is None || self.track is None || self.timestamp is None) ==> (r matches Err(e)
                && e matches LastfmError::Generic(m) && m@ == "'artist', 'track', and 'timestamp' are required."@),
            self.valid() && self.method.requires_auth_spec() && self.lastfm.sk is None ==> (
            r matches Err(e) && e matches LastfmError::Generic(_)),
            self.valid() && !(self.method.requires_auth_spec() && self.lastfm.sk is None) ==> (
            r matches Ok(p) && p.params.wf() && p.verb == HttpVerb::Post && p.params@
                == prepared_params(
                self.param_map(),
                self.method,
                self.lastfm.api_key@,
                self.lastfm.sk_view(),
                self.lastfm.api_secret@,
            )),
    {
        if self.artist.is_none() || self.track.is_none() || self.timestamp.is_none() {
            return Err(LastfmError::Generic("'artist', 'track', and 'timestamp' are required.".to_owned()));
        }
        let TrackScrobble { lastfm, artist, track, timestamp, album, context, stream_id, chosen_by_user, track_number, mbid, album_artist, duration, method } = self;
        let timestamp_value = match timestamp {
            Some(n) => Some(u64_to_dec(n)),
            None => None,
        };
        let chosen_by_user_value = match chosen_by_user {
            Some(n) => Some(u64_to_dec(n as u64)),
            None => None,
        };
        let track_number_value = match track_number {
            Some(n) => Some(u64_to_dec(n as u64)),
            None => None,
        };
        let duration_value = match duration {
            Some(n) => Some(u64_to_dec(n)),
            None => None,
        };
        let params = ParameterBuilder::new()
            .add_optional("artist", artist)
            .add_optional("track", track)
            .add_optional("timestamp", timestamp_value)
            .add_optional("album", album)
            .add_optional("context", context)
            .add_optional("streamId", stream_id)
            .add_optional("chosenByUser", chosen_by_user_value)
            .add_optional("trackNumber", track_number_value)
            .add_optional("mbid", mbid)
            .add_optional("albumArtist", album_artist)
            .add_optional("duration", duration_value)
            .build();
        lastfm.prepare_request(&method, params, HttpVerb::Post)
    }
}

/// Search tracks by name.
#[derive(Debug)]
pub struct TrackSearch<'a> {
    pub lastfm: &'a Lastfm,
    pub artist: Option<String>,
    pub track: Option<String>,
    pub limit: Option<i64>,
    pub page: Option<i64>,
    pub method: LastfmMethod,
}

impl<'a> TrackSearch<'a> {
    pub fn new(lastfm: &'a Lastfm) -> (r: Self)
        ensures
            r.lastfm == lastfm,
            r.artist is None,
            r.track is None,
            r.limit is None,
            r.page is None,
            r.method is TrackSearch,
    {
        TrackSearch {
            lastfm,
            artist: None,
            track: None,
            limit: None,
            page: None,
            method: LastfmMethod::TrackSearch,
        }
    }

    pub fn artist(self, artist: &str) -> (r: Self)
        ensures
            r.artist matches Some(v) && v@ == artist@,
            r.track == self.track,
            r.limit == self.limit,
            r.page == self.page,
            r.lastfm == self.lastfm,
            r.method == self.method,
    {
        TrackSearch {
            lastfm: self.lastfm,
            artist: Some(artist.to_owned()),
            track: self.track,
            limit: self.limit,
            page: self.page,
            method: self.method,
        }
    }

    pub fn track(self, track: &str) -> (r: Self)
        ensures
            r.track matches Some(v) && v@ == track@,
            r.artist == self.artist,
            r.limit == self.limit,
            r.page == self.page,
            r.lastfm == self.lastfm,
            r.method == self.method,
    {
        TrackSearch {
            lastfm: self.lastfm,
            artist: self.artist,
            track: Some(track.to_owned()),
            limit: self.limit,
            page: self.page,
            method: self.method,
        }
    }

    pub fn limit(self, limit: i64) -> (r: Self)
        ensures
            r.limit == Some(limit),
            r.artist == self.artist,
            r.track == self.track,
            r.page == self.page,
            r.lastfm == self.lastfm,
            r.method == self.method,
    {
        TrackSearch {
            lastfm: self.lastfm,
            artist: self.artist,
            track: self.track,
            limit: Some(limit),
            page: self.page,
            method: self.method,
        }
    }

    pub fn page(self, page: i64) -> (r: Self)
        ensures
            r.page == Some(page),
            r.artist == self.artist,
            r.track == self.track,
            r.limit == self.limit,
            r.lastfm == self.lastfm,
            r.method == self.method,
    {
        TrackSearch {
            lastfm: self.lastfm,
            artist: self.artist,
            track: self.track,
            limit: self.limit,
            page: Some(page),
            method: self.method,
        }
    }

    /// The per-operation invariants checked before dispatch.
    pub open spec fn valid(&self) -> bool {
        &&& self.artist is Some && self.artist->Some_0@.len() > 0
    }

    /// The fields this request contributes to the wire.
    pub open spec fn param_map(&self) -> Map<Seq<char>, Seq<char>> {
        opt_insert_i64(opt_insert_i64(opt_insert(opt_insert(Map::empty(), "track"@, self.track), "artist"@, self.artist), "limit"@, self.limit), "page"@, self.page)
    }

    /// Validate the fields, drain them into a parameter set, and assemble
    /// the dispatched call.
    pub fn prepare(self) -> (r: Result<PreparedRequest, LastfmError>)
        ensures
            !self.valid() ==> (r matches Err(e) && e matches LastfmError::Generic(_)),
            (self.artist is None || self.artist->Some_0@.len() == 0) ==> (r matches Err(e)
                && e matches LastfmError::Generic(m) && m@ == "The artist name is required."@),
            self.valid() && self.method.requires_auth_spec() && self.lastfm.sk is None ==> (
            r matches Err(e) && e matches LastfmError::Generic(_)),
            self.valid() && !(self.method.requires_auth_spec() && self.lastfm.sk is None) ==> (
            r matches Ok(p) && p.params.wf() && p.verb == HttpVerb::Get && p.params@
                == prepared_params(
                self.param_map(),
                self.method,
                self.lastfm.api_key@,
                self.lastfm.sk_view(),
                self.lastfm.api_secret@,
            )),
    {
        match &self.artist {
            Some(v) => {
                if v.as_str().is_empty() {
                    return Err(LastfmError::Generic("The artist name is required.".to_owned()));
                }
            },
            None => {
                return Err(LastfmError::Generic("The artist name is required.".to_owned()));
            },
        }
        let TrackSearch { lastfm, artist, track, limit, page, method } = self;
        let limit_value = match limit {
            Some(n) => Some(i64_to_dec(n)),
            None => None,
        };
        let page_value = match page {
            Some(n) => Some(i64_to_dec(n)),
            None => None,
        };
        let params = ParameterBuilder::new()
            .add_optional("track", track)
            .add_optional("artist", artist)
            .add_optional("limit", limit_value)
            .add_optional("page", page_value)
            .build();
        lastfm.prepare_request(&method, params, HttpVerb::Get)
    }
}

/// Announce the track now playing; authenticated.
#[derive(Debug)]
pub struct TrackUpdateNowPlaying<'a> {
    pub lastfm: &'a Lastfm,
    pub artist: Option<String>,
    pub track: Option<String>,
    pub album: Option<String>,
    pub track_number: Option<String>,
    pub context: Option<String>,
    pub mbid: Option<String>,
    pub duration: Option<String>,
    pub album_artist: Option<String>,
    pub method: LastfmMethod,
}

impl<'a> TrackUpdateNowPlaying<'a> {
    pub fn new(lastfm: &'a Lastfm) -> (r: Self)
        ensures
            r.lastfm == lastfm,
            r.artist is None,
            r.track is None,
            r.album is None,
            r.track_number is None,
            r.context is None,
            r.mbid is None,
            r.duration is None,
            r.album_artist is None,
            r.method is TrackUpdateNowPlaying,
    {
        TrackUpdateNowPlaying {
            lastfm,
            artist: None,
            track: None,
            album: None,
            track_number: None,
            context: None,
            mbid: None,
            duration: None,
            album_artist: None,
            method: LastfmMethod::TrackUpdateNowPlaying,
        }
    }

    pub fn artist(self, artist: &str) -> (r: Self)
        ensures
            r.artist matches Some(v) && v@ == artist@,
            r.track == self.track,
            r.album == self.album,
            r.track_number == self.track_number,
            r.context == self.context,
            r.mbid == self.mbid,
            r.duration == self.duration,
            r.album_artist == self.album_artist,
            r.lastfm == self.lastfm,
            r.method == self.method,
    {
        TrackUpdateNowPlaying {
            lastfm: self.lastfm,
            artist: Some(artist.to_owned()),
            track: self.track,
            album: self.album,
            track_number: self.track_number,
            context: self.context,
            mbid: self.mbid,
            duration: self.duration,
            album_artist: self.album_artist,
            method: self.method,
        }
    }

    pub fn track(self, track: &str) -> (r: Self)
        ensures
            r.track matches Some(v) && v@ == track@,
            r.artist == self.artist,
            r.album == self.album,
            r.track_number == self.track_number,
            r.context == self.context,
            r.mbid == self.mbid,
            r.duration == self.duration,
            r.album_artist == self.album_artist,
            r.lastfm == self.lastfm,
            r.method == self.method,
    {
        TrackUpdateNowPlaying {
            lastfm: self.lastfm,
            artist: self.artist,
            track: Some(track.to_owned()),
            album: self.album,
            track_number: self.track_number,
            context: self.context,
            mbid: self.mbid,
            duration: self.duration,
            album_artist: self.album_artist,
            method: self.method,
        }
    }

    pub fn album(self, album: &str) -> (r: Self)
        ensures
            r.album matches Some(v) && v@ == album@,
            r.artist == self.artist,
            r.track == self.track,
            r.track_number == self.track_number,
            r.context == self.context,
            r.mbid == self.mbid,
            r.duration == self.duration,
            r.album_artist == self.album_artist,
            r.lastfm == self.lastfm,
            r.method == self.method,
    {
        TrackUpdateNowPlaying {
            lastfm: self.lastfm,
            artist: self.artist,
            track: self.track,
            album: Some(album.to_owned()),
            track_number: self.track_number,
            context: self.context,
            mbid: self.mbid,
            duration: self.duration,
            album_artist: self.album_artist,
            method: self.method,
        }
    }

    pub fn track_number(self, track_number: &str) -> (r: Self)
        ensures
            r.track_number matches Some(v) && v@ == track_number@,
            r.artist == self.artist,
            r.track == self.track,
            r.album == self.album,
            r.context == self.context,
            r.mbid == self.mbid,
            r.duration == self.duration,
            r.album_artist == self.album_artist,
            r.lastfm == self.lastfm,
            r.method == self.method,
    {
        TrackUpdateNowPlaying {
            lastfm: self.lastfm,
            artist: self.artist,
            track: self.track,
            album: self.album,
            track_number: Some(track_number.to_owned()),
            context: self.context,
            mbid: self.mbid,
            duration: self.duration,
            album_artist: self.album_artist,
            method: self.method,
        }
    }

    pub fn context(self, context: &str) -> (r: Self)
        ensures
            r.context matches Some(v) && v@ == context@,
            r.artist == self.artist,
            r.track == self.track,
            r.album == self.album,
            r.track_number == self.track_number,
            r.mbid == self.mbid,
            r.duration == self.duration,
            r.album_artist == self.album_artist,
            r.lastfm == self.lastfm,
            r.method == self.method,
    {
        TrackUpdateNowPlaying {
            lastfm: self.lastfm,
            artist: self.artist,
            track: self.track,
            album: self.album,
            track_number: self.track_number,
            context: Some(context.to_owned()),
            mbid: self.mbid,
            duration: self.duration,
            album_artist: self.album_artist,
            method: self.method,
        }
    }

    pub fn mbid(self, mbid: &str) -> (r: Self)
        ensures
            r.mbid matches Some(v) && v@ == mbid@,
            r.artist == self.artist,
            r.track == self.track,
            r.album == self.album,
            r.track_number == self.track_number,
            r.context == self.context,
            r.duration == self.duration,
            r.album_artist == self.album_artist,
            r.lastfm == self.lastfm,
            r.method == self.method,
    {
        TrackUpdateNowPlaying {
            lastfm: self.lastfm,
            artist: self.artist,
            track: self.track,
            album: self.album,
            track_number: self.track_number,
            context: self.context,
            mbid: Some(mbid.to_owned()),
            duration: self.duration,
            album_artist: self.album_artist,
            method: self.method,
        }
    }

    pub fn duration(self, duration: &str) -> (r: Self)
        ensures
            r.duration matches Some(v) && v@ == duration@,
            r.artist == self.artist,
            r.track == self.track,
            r.album == self.album,
            r.track_number == self.track_number,
            r.context == self.context,
            r.mbid == self.mbid,
            r.album_artist == self.album_artist,
            r.lastfm == self.lastfm,
            r.method == self.method,
    {
        TrackUpdateNowPlaying {
            lastfm: self.lastfm,
            artist: self.artist,
            track: self.track,
            album: self.album,
            track_number: self.track_number,
            context: self.context,
            mbid: self.mbid,
            duration: Some(duration.to_owned()),
            album_artist: self.album_artist,
            method: self.method,
        }
    }

    pub fn album_artist(self, album_artist: &str) -> (r: Self)
        ensures
            r.album_artist matches Some(v) && v@ == album_artist@,
            r.artist == self.artist,
            r.track == self.track,
            r.album == self.album,
            r.track_number == self.track_number,
            r.context == self.context,
            r.mbid == self.mbid,
            r.duration == self.duration,
            r.lastfm == self.lastfm,
            r.method == self.method,
    {
        TrackUpdateNowPlaying {
            lastfm: self.lastfm,
            artist: self.artist,
            track: self.track,
            album: self.album,
            track_number: self.track_number,
            context: self.context,
            mbid: self.mbid,
            duration: self.duration,
            album_artist: Some(album_artist.to_owned()),
            method: self.method,
        }
    }

    /// This operation has no local invariants to check.
    pub open spec fn valid(&self) -> bool {
        true
    }

    /// The fields this request contributes to the wire.
    pub open spec fn param_map(&self) -> Map<Seq<char>, Seq<char>> {
        opt_insert(opt_insert(opt_insert(opt_insert(opt_insert(opt_insert(opt_insert(opt_insert(Map::empty(), "artist"@, self.artist), "track"@, self.track), "album"@, self.album), "trackNumber"@, self.track_number), "context"@, self.context), "mbid"@, self.mbid), "duration"@, self.duration), "albumArtist"@, self.album_artist)
    }

    /// Validate the fields, drain them into a parameter set, and assemble
    /// the dispatched call.
    pub fn prepare(self) -> (r: Result<PreparedRequest, LastfmError>)
        ensures
            !self.valid() ==> (r matches Err(e) && e matches LastfmError::Generic(_)),
            self.valid() && self.method.requires_auth_spec() && self.lastfm.sk is None ==> (
            r matches Err(e) && e matches LastfmError::Generic(_)),
            self.valid() && !(self.method.requires_auth_spec() && self.lastfm.sk is None) ==> (
            r matches Ok(p) && p.params.wf() && p.verb == HttpVerb::Post && p.params@
                == prepared_params(
                self.param_map(),
                self.method,
                self.lastfm.api_key@,
                self.lastfm.sk_view(),
                self.lastfm.api_secret@,
            )),
    {
        let TrackUpdateNowPlaying { lastfm, artist, track, album, track_number, context, mbid, duration, album_artist, method } = self;
        let params = ParameterBuilder::new()
            .add_optional("artist", artist)
            .add_optional("track", track)
            .add_optional("album", album)
            .add_optional("trackNumber", track_number)
            .add_optional("context", context)
            .add_optional("mbid", mbid)
            .add_optional("duration", duration)
            .add_optional("albumArtist", album_artist)
            .build();
        lastfm.prepare_request(&method, params, HttpVerb::Post)
    }
}

} // verus!
