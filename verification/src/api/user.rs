//! User operations: profiles, charts, and listening history.

use vstd::prelude::*;

use crate::api::{opt_insert, opt_insert_bool, opt_insert_i64, opt_insert_u32, opt_insert_u64};
use crate::catalog::LastfmMethod;
use crate::client::Lastfm;
use crate::dispatch::{prepared_params, HttpVerb, PreparedRequest};
use crate::error::LastfmError;
use crate::fmtnum::{bool_to_str, i64_to_dec, u64_to_dec};
use crate::params::ParameterBuilder;

verus! {

/// User-related operations of a client context.
#[derive(Debug)]
pub struct User<'a> {
    pub lastfm: &'a Lastfm,
}

impl<'a> User<'a> {
    pub fn new(lastfm: &'a Lastfm) -> (r: Self)
        ensures
            r.lastfm == lastfm,
    {
        User { lastfm }
    }

    /// A fresh `UserGetInfo` request.
    pub fn get_info(&mut self) -> (r: UserGetInfo<'a>)
        ensures
            r.lastfm == old(self).lastfm,
            r.user is None,
            r.method is UserGetInfo,
    {
        UserGetInfo::new(self.lastfm)
    }

    /// A fresh `UserGetFriends` request.
    pub fn get_friends(&mut self) -> (r: UserGetFriends<'a>)
        ensures
            r.lastfm == old(self).lastfm,
            r.user is None,
            r.recenttracks is None,
            r.limit is None,
            r.page is None,
            r.method is UserGetFriends,
    {
        UserGetFriends::new(self.lastfm)
    }

    /// A fresh `UserGetLovedTracks` request.
    pub fn get_loved_tracks(&mut self) -> (r: UserGetLovedTracks<'a>)
        ensures
            r.lastfm == old(self).lastfm,
            r.artist is None,
            r.mbid is None,
            r.autocorrect == Some(false),
            r.username is None,
            r.lang is None,
            r.method is UserGetLovedTracks,
    {
        UserGetLovedTracks::new(self.lastfm)
    }

    /// A fresh `UserGetPersonalTags` request.
    pub fn get_personal_tags(&mut self) -> (r: UserGetPersonalTags<'a>)
        ensures
            r.lastfm == old(self).lastfm,
            r.user is None,
            r.tag is None,
            r.taggingtype is None,
            r.limit is None,
            r.page is None,
            r.method is UserGetPersonalTags,
    {
        UserGetPersonalTags::new(self.lastfm)
    }

    /// A fresh `UserGetRecentTracks` request.
    pub fn get_recent_tracks(&mut self) -> (r: UserGetRecentTracks<'a>)
        ensures
            r.lastfm == old(self).lastfm,
            r.username is None,
            r.limit == Some(50u32),
            r.page == Some(1u32),
            r.from is None,
            r.extended is None,
            r.to is None,
            r.method is UserGetRecentTracks,
    {
        UserGetRecentTracks::new(self.lastfm)
    }

    /// A fresh `UserGetTopAlbums` request.
    pub fn get_top_albums(&mut self) -> (r: UserGetTopAlbums<'a>)
        ensures
            r.lastfm == old(self).lastfm,
            r.artist is None,
            r.mbid is None,
            r.autocorrect == Some(false),
            r.limit is None,
            r.page is None,
            r.method is UserGetTopAlbums,
    {
        UserGetTopAlbums::new(self.lastfm)
    }

    /// A fresh `UserGetTopTags` request.
    pub fn get_top_tags(&mut self) -> (r: UserGetTopTags<'a>)
        ensures
            r.lastfm == old(self).lastfm,
            r.artist is None,
            r.mbid is None,
            r.autocorrect == Some(false),
            r.method is UserGetTopTags,
    {
        UserGetTopTags::new(self.lastfm)
    }

    /// A fresh `UserGetWeeklyArtistChart` request.
    pub fn get_weekly_artist_chart(&mut self) -> (r: UserGetWeeklyArtistChart<'a>)
        ensures
            r.lastfm == old(self).lastfm,
            r.user is None,
            r.from is None,
            r.to is None,
            r.method is UserGetWeeklyArtistChart,
    {
        UserGetWeeklyArtistChart::new(self.lastfm)
    }

    /// A fresh `UserGetWeeklyChartList` request.
    pub fn get_weekly_chart_list(&mut self) -> (r: UserGetWeeklyChartList<'a>)
        ensures
            r.lastfm == old(self).lastfm,
            r.user is None,
            r.method is UserGetWeeklyChartList,
    {
        UserGetWeeklyChartList::new(self.lastfm)
    }

    /// A fresh `UserGetWeeklyTrackChart` request.
    pub fn get_weekly_track_chart(&mut self) -> (r: UserGetWeeklyTrackChart<'a>)
        ensures
            r.lastfm == old(self).lastfm,
            r.user is None,
            r.from is None,
            r.to is None,
            r.method is UserGetWeeklyTrackChart,
    {
        UserGetWeeklyTrackChart::new(self.lastfm)
    }

}

/// Look up a user's profile.
#[derive(Debug)]
pub struct UserGetInfo<'a> {
    pub lastfm: &'a Lastfm,
    pub user: Option<String>,
    pub method: LastfmMethod,
}

impl<'a> UserGetInfo<'a> {
    pub fn new(lastfm: &'a Lastfm) -> (r: Self)
        ensures
            r.lastfm == lastfm,
            r.user is None,
            r.method is UserGetInfo,
    {
        UserGetInfo {
            lastfm,
            user: None,
            method: LastfmMethod::UserGetInfo,
        }
    }

    pub fn user(self, user: &str) -> (r: Self)
        ensures
            r.user matches Some(v) && v@ == user@,
            r.lastfm == self.lastfm,
            r.method == self.method,
    {
        UserGetInfo {
            lastfm: self.lastfm,
            user: Some(user.to_owned()),
            method: self.method,
        }
    }

    /// This operation has no local invariants to check.
    pub open spec fn valid(&self) -> bool {
        true
    }

    /// The fields this request contributes to the wire.
    pub open spec fn param_map(&self) -> Map<Seq<char>, Seq<char>> {
        opt_insert(Map::empty(), "user"@, self.user)
    }

    /// Validate the fields, drain them into a parameter set, and assemble
    /// the dispatched call.
    pub fn prepare(self) -> (r: Result<PreparedRequest, LastfmError>)
        ensures
            !self.valid() ==> (r matches Err(e) && e matches LastfmError::Generic(_)),
            self.valid() && self.method.requires_auth_spec() && self.lastfm.sk is None ==> (
            r matches Err(e) && e matches LastfmError::Generic(_)),
            self.valid() && !(self.method.requires_auth_spec() && self.lastfm.sk is None) ==> (
            r matches Ok(p) && p.params.wf() && p.verb == HttpVerb::Get && p.params@
                == prepared_params(
                self.param_map(),
                self.method,
                self.lastfm.api_key@,
                self.lastfm.sk_view(),
                self.lastfm.api_secret@,
            )),
    {
        let UserGetInfo { lastfm, user, method } = self;
        let params = ParameterBuilder::new()
            .add_optional("user", user)
            .build();
        lastfm.prepare_request(&method, params, HttpVerb::Get)
    }
}

/// A user's friends.
#[derive(Debug)]
pub struct UserGetFriends<'a> {
    pub lastfm: &'a Lastfm,
    pub user: Option<String>,
    pub recenttracks: Option<String>,
    pub limit: Option<String>,
    pub page: Option<String>,
    pub method: LastfmMethod,
}

impl<'a> UserGetFriends<'a> {
    pub fn new(lastfm: &'a Lastfm) -> (r: Self)
        ensures
            r.lastfm == lastfm,
            r.user is None,
            r.recenttracks is None,
            r.limit is None,
            r.page is None,
            r.method is UserGetFriends,
    {
        UserGetFriends {
            lastfm,
            user: None,
            recenttracks: None,
            limit: None,
            page: None,
            method: LastfmMethod::UserGetFriends,
        }
    }

    pub fn user(self, user: &str) -> (r: Self)
        ensures
            r.user matches Some(v) && v@ == user@,
            r.recenttracks == self.recenttracks,
            r.limit == self.limit,
            r.page == self.page,
            r.lastfm == self.lastfm,
            r.method == self.method,
    {
        UserGetFriends {
            lastfm: self.lastfm,
            user: Some(user.to_owned()),
            recenttracks: self.recenttracks,
            limit: self.limit,
            page: self.page,
            method: self.method,
        }
    }

    pub fn recenttracks(self, recenttracks: &str) -> (r: Self)
        ensures
            r.recenttracks matches Some(v) && v@ == recenttracks@,
            r.user == self.user,
            r.limit == self.limit,
            r.page == self.page,
            r.lastfm == self.lastfm,
            r.method == self.method,
    {
        UserGetFriends {
            lastfm: self.lastfm,
            user: self.user,
            recenttracks: Some(recenttracks.to_owned()),
            limit: self.limit,
            page: self.page,
            method: self.method,
        }
    }

    pub fn limit(self, limit: &str) -> (r: Self)
        ensures
            r.limit matches Some(v) && v@ == limit@,
            r.user == self.user,
            r.recenttracks == self.recenttracks,
            r.page == self.page,
            r.lastfm == self.lastfm,
            r.method == self.method,
    {
        UserGetFriends {
            lastfm: self.lastfm,
            user: self.user,
            recenttracks: self.recenttracks,
            limit: Some(limit.to_owned()),
            page: self.page,
            method: self.method,
        }
    }

    pub fn page(self, page: &str) -> (r: Self)
        ensures
            r.page matches Some(v) && v@ == page@,
            r.user == self.user,
            r.recenttracks == self.recenttracks,
            r.limit == self.limit,
            r.lastfm == self.lastfm,
            r.method == self.method,
    {
        UserGetFriends {
            lastfm: self.lastfm,
            user: self.user,
            recenttracks: self.recenttracks,
            limit: self.limit,
            page: Some(page.to_owned()),
            method: self.method,
        }
    }

    /// This operation has no local invariants to check.
    pub open spec fn valid(&self) -> bool {
        true
    }

    /// The fields this request contributes to the wire.
    pub open spec fn param_map(&self) -> Map<Seq<char>, Seq<char>> {
        opt_insert(opt_insert(opt_insert(opt_insert(Map::empty(), "user"@, self.user), "recenttracks"@, self.recenttracks), "limit"@, self.limit), "page"@, self.page)
    }

    /// Validate the fields, drain them into a parameter set, and assemble
    /// the dispatched call.
    pub fn prepare(self) -> (r: Result<PreparedRequest, LastfmError>)
        ensures
            !self.valid() ==> (r matches Err(e) && e matches LastfmError::Generic(_)),
            self.valid() && self.method.requires_auth_spec() && self.lastfm.sk is None ==> (
            r matches Err(e) && e matches LastfmError::Generic(_)),
            self.valid() && !(self.method.requires_auth_spec() && self.lastfm.sk is None) ==> (
            r matches Ok(p) && p.params.wf() && p.verb == HttpVerb::Get && p.params@
                == prepared_params(
                self.param_map(),
                self.method,
                self.lastfm.api_key@,
                self.lastfm.sk_view(),
                self.lastfm.api_secret@,
            )),
    {
        let UserGetFriends { lastfm, user, recenttracks, limit, page, method } = self;
        let params = ParameterBuilder::new()
            .add_optional("user", user)
            .add_optional("recenttracks", recenttracks)
            .add_optional("limit", limit)
            .add_optional("page", page)
            .build();
        lastfm.prepare_request(&method, params, HttpVerb::Get)
    }
}

/// The tracks a user loves.
#[derive(Debug)]
pub struct UserGetLovedTracks<'a> {
    pub lastfm: &'a Lastfm,
    pub artist: Option<String>,
    pub mbid: Option<String>,
    pub autocorrect: Option<bool>,
    pub username: Option<String>,
    pub lang: Option<String>,
    pub method: LastfmMethod,
}

impl<'a> UserGetLovedTracks<'a> {
    pub fn new(lastfm: &'a Lastfm) -> (r: Self)
        ensures
            r.lastfm == lastfm,
            r.artist is None,
            r.mbid is None,
            r.autocorrect == Some(false),
            r.username is None,
            r.lang is None,
            r.method is UserGetLovedTracks,
    {
        UserGetLovedTracks {
            lastfm,
            artist: None,
            mbid: None,
            autocorrect: Some(false),
            username: None,
            lang: None,
            method: LastfmMethod::UserGetLovedTracks,
        }
    }

    pub fn artist(self, artist: &str) -> (r: Self)
        ensures
            r.artist matches Some(v) && v@ == artist@,
            r.mbid == self.mbid,
            r.autocorrect == self.autocorrect,
            r.username == self.username,
            r.lang == self.lang,
            r.lastfm == self.lastfm,
            r.method == self.method,
    {
        UserGetLovedTracks {
            lastfm: self.lastfm,
            artist: Some(artist.to_owned()),
            mbid: self.mbid,
            autocorrect: self.autocorrect,
            username: self.username,
            lang: self.lang,
            method: self.method,
        }
    }

    pub fn mbid(self, mbid: &str) -> (r: Self)
        ensures
            r.mbid matches Some(v) && v@ == mbid@,
            r.artist == self.artist,
            r.autocorrect == self.autocorrect,
            r.username == self.username,
            r.lang == self.lang,
            r.lastfm == self.lastfm,
            r.method == self.method,
    {
        UserGetLovedTracks {
            lastfm: self.lastfm,
            artist: self.artist,
            mbid: Some(mbid.to_owned()),
            autocorrect: self.autocorrect,
            username: self.username,
            lang: self.lang,
            method: self.method,
        }
    }

    pub fn autocorrect(self, autocorrect: bool) -> (r: Self)
        ensures
            r.autocorrect == Some(autocorrect),
            r.artist == self.artist,
            r.mbid == self.mbid,
            r.username == self.username,
            r.lang == self.lang,
            r.lastfm == self.lastfm,
            r.method == self.method,
    {
        UserGetLovedTracks {
            lastfm: self.lastfm,
            artist: self.artist,
            mbid: self.mbid,
            autocorrect: Some(autocorrect),
            username: self.username,
            lang: self.lang,
            method: self.method,
        }
    }

    pub fn username(self, username: &str) -> (r: Self)
        ensures
            r.username matches Some(v) && v@ == username@,
            r.artist == self.artist,
            r.mbid == self.mbid,
            r.autocorrect == self.autocorrect,
            r.lang == self.lang,
            r.lastfm == self.lastfm,
            r.method == self.method,
    {
        UserGetLovedTracks {
            lastfm: self.lastfm,
            artist: self.artist,
            mbid: self.mbid,
            autocorrect: self.autocorrect,
            username: Some(username.to_owned()),
            lang: self.lang,
            method: self.method,
        }
    }

    pub fn lang(self, lang: &str) -> (r: Self)
        ensures
            r.lang matches Some(v) && v@ == lang@,
            r.artist == self.artist,
            r.mbid == self.mbid,
            r.autocorrect == self.autocorrect,
            r.username == self.username,
            r.lastfm == self.lastfm,
            r.method == self.method,
    {
        UserGetLovedTracks {
            lastfm: self.lastfm,
            artist: self.artist,
            mbid: self.mbid,
            autocorrect: self.autocorrect,
            username: self.username,
            lang: Some(lang.to_owned()),
            method: self.method,
        }
    }

    /// The per-operation invariants checked before dispatch.
    pub open spec fn valid(&self) -> bool {
        &&& self.mbid is Some || self.artist is Some
    }

    /// The fields this request contributes to the wire.
    pub open spec fn param_map(&self) -> Map<Seq<char>, Seq<char>> {
        opt_insert_bool(opt_insert(opt_insert(opt_insert(opt_insert(Map::empty(), "artist"@, self.artist), "mbid"@, self.mbid), "username"@, self.username), "lang"@, self.lang), "autocorrect"@, self.autocorrect)
    }

    /// Validate the fields, drain them into a parameter set, and assemble
    /// the dispatched call.
    pub fn prepare(self) -> (r: Result<PreparedRequest, LastfmError>)
        ensures
            !self.valid() ==> (r matches Err(e) && e matches LastfmError::Generic(_)),
            (self.mbid is None && self.artist is None) ==> (r matches Err(e)
                && e matches LastfmError::Generic(m) && m@ == "Either 'mbid' or 'artist' must be provided."@),
            self.valid() && self.method.requires_auth_spec() && self.lastfm.sk is None ==> (
            r matches Err(e) && e matches LastfmError::Generic(_)),
            self.valid() && !(self.method.requires_auth_spec() && self.lastfm.sk is None) ==> (
            r matches Ok(p) && p.params.wf() && p.verb == HttpVerb::Get && p.params@
                == prepared_params(
                self.param_map(),
                self.method,
                self.lastfm.api_key@,
                self.lastfm.sk_view(),
                self.lastfm.api_secret@,
            )),
    {
        if self.mbid.is_none() && self.artist.is_none() {
            return Err(LastfmError::Generic("Either 'mbid' or 'artist' must be provided.".to_owned()));
        }
        let UserGetLovedTracks { lastfm, artist, mbid, autocorrect, username, lang, method } = self;
        let autocorrect_value = match autocorrect {
            Some(v) => Some(bool_to_str(v)),
            None => None,
        };
        let params = ParameterBuilder::new()
            .add_optional("artist", artist)
            .add_optional("mbid", mbid)
            .add_optional("username", username)
            .add_optional("lang", lang)
            .add_optional("autocorrect", autocorrect_value)
            .build();
        lastfm.prepare_request(&method, params, HttpVerb::Get)
    }
}

/// What a user tagged with one tag.
#[derive(Debug)]
pub struct UserGetPersonalTags<'a> {
    pub lastfm: &'a Lastfm,
    pub user: Option<String>,
    pub tag: Option<String>,
    pub taggingtype: Option<String>,
    pub limit: Option<String>,
    pub page: Option<String>,
    pub method: LastfmMethod,
}

impl<'a> UserGetPersonalTags<'a> {
    pub fn new(lastfm: &'a Lastfm) -> (r: Self)
        ensures
            r.lastfm == lastfm,
            r.user is None,
            r.tag is None,
            r.taggingtype is None,
            r.limit is None,
            r.page is None,
            r.method is UserGetPersonalTags,
    {
        UserGetPersonalTags {
            lastfm,
            user: None,
            tag: None,
            taggingtype: None,
            limit: None,
            page: None,
            method: LastfmMethod::UserGetPersonalTags,
        }
    }

    pub fn user(self, user: &str) -> (r: Self)
        ensures
            r.user matches Some(v) && v@ == user@,
            r.tag == self.tag,
            r.taggingtype == self.taggingtype,
            r.limit == self.limit,
            r.page == self.page,
            r.lastfm == self.lastfm,
            r.method == self.method,
    {
        UserGetPersonalTags {
            lastfm: self.lastfm,
            user: Some(user.to_owned()),
            tag: self.tag,
            taggingtype: self.taggingtype,
            limit: self.limit,
            page: self.page,
            method: self.method,
        }
    }

    pub fn tag(self, tag: &str) -> (r: Self)
        ensures
            r.tag matches Some(v) && v@ == tag@,
            r.user == self.user,
            r.taggingtype == self.taggingtype,
            r.limit == self.limit,
            r.page == self.page,
            r.lastfm == self.lastfm,
            r.method == self.method,
    {
        UserGetPersonalTags {
            lastfm: self.lastfm,
            user: self.user,
            tag: Some(tag.to_owned()),
            taggingtype: self.taggingtype,
            limit: self.limit,
            page: self.page,
            method: self.method,
        }
    }

    pub fn taggingtype(self, taggingtype: &str) -> (r: Self)
        ensures
            r.taggingtype matches Some(v) && v@ == taggingtype@,
            r.user == self.user,
            r.tag == self.tag,
            r.limit == self.limit,
            r.page == self.page,
            r.lastfm == self.lastfm,
            r.method == self.method,
    {
        UserGetPersonalTags {
            lastfm: self.lastfm,
            user: self.user,
            tag: self.tag,
            taggingtype: Some(taggingtype.to_owned()),
            limit: self.limit,
            page: self.page,
            method: self.method,
        }
    }

    pub fn limit(self, limit: &str) -> (r: Self)
        ensures
            r.limit matches Some(v) && v@ == limit@,
            r.user == self.user,
            r.tag == self.tag,
            r.taggingtype == self.taggingtype,
            r.page == self.page,
            r.lastfm == self.lastfm,
            r.method == self.method,
    {
        UserGetPersonalTags {
            lastfm: self.lastfm,
            user: self.user,
            tag: self.tag,
            taggingtype: self.taggingtype,
            limit: Some(limit.to_owned()),
            page: self.page,
            method: self.method,
        }
    }

    pub fn page(self, page: &str) -> (r: Self)
        ensures
            r.page matches Some(v) && v@ == page@,
            r.user == self.user,
            r.tag == self.tag,
            r.taggingtype == self.taggingtype,
            r.limit == self.limit,
            r.lastfm == self.lastfm,
            r.method == self.method,
    {
        UserGetPersonalTags {
            lastfm: self.lastfm,
            user: self.user,
            tag: self.tag,
            taggingtype: self.taggingtype,
            limit: self.limit,
            page: Some(page.to_owned()),
            method: self.method,
        }
    }

    /// The per-operation invariants checked before dispatch.
    pub open spec fn valid(&self) -> bool {
        &&& self.tag is Some || self.user is Some
    }

    /// The fields this request contributes to the wire.
    pub open spec fn param_map(&self) -> Map<Seq<char>, Seq<char>> {
        opt_insert(opt_insert(opt_insert(opt_insert(opt_insert(Map::empty(), "user"@, self.user), "tag"@, self.tag), "taggingtype"@, self.taggingtype), "limit"@, self.limit), "page"@, self.page)
    }

    /// Validate the fields, drain them into a parameter set, and assemble
    /// the dispatched call.
    pub fn prepare(self) -> (r: Result<PreparedRequest, LastfmError>)
        ensures
            !self.valid() ==> (r matches Err(e) && e matches LastfmError::Generic(_)),
            (self.tag is None && self.user is None) ==> (r matches Err(e)
                && e matches LastfmError::Generic(m) && m@ == "Either 'mbid' or 'artist' must be provided."@),
            self.valid() && self.method.requires_auth_spec() && self.lastfm.sk is None ==> (
            r matches Err(e) && e matches LastfmError::Generic(_)),
            self.valid() && !(self.method.requires_auth_spec() && self.lastfm.sk is None) ==> (
            r matches Ok(p) && p.params.wf() && p.verb == HttpVerb::Get && p.params@
                == prepared_params(
                self.param_map(),
                self.method,
                self.lastfm.api_key@,
                self.lastfm.sk_view(),
                self.lastfm.api_secret@,
            )),
    {
        if self.tag.is_none() && self.user.is_none() {
            return Err(LastfmError::Generic("Either 'mbid' or 'artist' must be provided.".to_owned()));
        }
        let UserGetPersonalTags { lastfm, user, tag, taggingtype, limit, page, method } = self;
        let params = ParameterBuilder::new()
            .add_optional("user", user)
            .add_optional("tag", tag)
            .add_optional("taggingtype", taggingtype)
            .add_optional("limit", limit)
            .add_optional("page", page)
            .build();
        lastfm.prepare_request(&method, params, HttpVerb::Get)
    }
}

/// The tracks a user listened to recently.
#[derive(Debug)]
pub struct UserGetRecentTracks<'a> {
    pub lastfm: &'a Lastfm,
    pub username: Option<String>,
    pub limit: Option<u32>,
    pub page: Option<u32>,
    pub from: Option<u64>,
    pub extended: Option<u32>,
    pub to: Option<u64>,
    pub method: LastfmMethod,
}

impl<'a> UserGetRecentTracks<'a> {
    pub fn new(lastfm: &'a Lastfm) -> (r: Self)
        ensures
            r.lastfm == lastfm,
            r.username is None,
            r.limit == Some(50u32),
            r.page == Some(1u32),
            r.from is None,
            r.extended is None,
            r.to is None,
            r.method is UserGetRecentTracks,
    {
        UserGetRecentTracks {
            lastfm,
            username: None,
            limit: Some(50u32),
            page: Some(1u32),
            from: None,
            extended: None,
            to: None,
            method: LastfmMethod::UserGetRecentTracks,
        }
    }

    pub fn username(self, username: &str) -> (r: Self)
        ensures
            r.username matches Some(v) && v@ == username@,
            r.limit == self.limit,
            r.page == self.page,
            r.from == self.from,
            r.extended == self.extended,
            r.to == self.to,
            r.lastfm == self.lastfm,
            r.method == self.method,
    {
        UserGetRecentTracks {
            lastfm: self.lastfm,
            username: Some(username.to_owned()),
            limit: self.limit,
            page: self.page,
            from: self.from,
            extended: self.extended,
            to: self.to,
            method: self.method,
        }
    }

    pub fn limit(self, limit: u32) -> (r: Self)
        ensures
            r.limit == Some(limit),
            r.username == self.username,
            r.page == self.page,
            r.from == self.from,
            r.extended == self.extended,
            r.to == self.to,
            r.lastfm == self.lastfm,
            r.method == self.method,
    {
        UserGetRecentTracks {
            lastfm: self.lastfm,
            username: self.username,
            limit: Some(limit),
            page: self.page,
            from: self.from,
            extended: self.extended,
            to: self.to,
            method: self.method,
        }
    }

    pub fn page(self, page: u32) -> (r: Self)
        ensures
            r.page == Some(page),
            r.username == self.username,
            r.limit == self.limit,
            r.from == self.from,
            r.extended == self.extended,
            r.to == self.to,
            r.lastfm == self.lastfm,
            r.method == self.method,
    {
        UserGetRecentTracks {
            lastfm: self.lastfm,
            username: self.username,
            limit: self.limit,
            page: Some(page),
            from: self.from,
            extended: self.extended,
            to: self.to,
            method: self.method,
        }
    }

    pub fn from(self, from: u64) -> (r: Self)
        ensures
            r.from == Some(from),
            r.username == self.username,
            r.limit == self.limit,
            r.page == self.page,
            r.extended == self.extended,
            r.to == self.to,
            r.lastfm == self.lastfm,
            r.method == self.method,
    {
        UserGetRecentTracks {
            lastfm: self.lastfm,
            username: self.username,
            limit: self.limit,
            page: self.page,
            from: Some(from),
            extended: self.extended,
            to: self.to,
            method: self.method,
        }
    }

    pub fn extended(self, extended: u32) -> (r: Self)
        ensures
            r.extended == Some(extended),
            r.username == self.username,
            r.limit == self.limit,
            r.page == self.page,
            r.from == self.from,
            r.to == self.to,
            r.lastfm == self.lastfm,
            r.method == self.method,
    {
        UserGetRecentTracks {
            lastfm: self.lastfm,
            username: self.username,
            limit: self.limit,
            page: self.page,
            from: self.from,
            extended: Some(extended),
            to: self.to,
            method: self.method,
        }
    }

    pub fn to(self, to: u64) -> (r: Self)
        ensures
            r.to == Some(to),
            r.username == self.username,
            r.limit == self.limit,
            r.page == self.page,
            r.from == self.from,
            r.extended == self.extended,
            r.lastfm == self.lastfm,
            r.method == self.method,
    {
        UserGetRecentTracks {
            lastfm: self.lastfm,
            username: self.username,
            limit: self.limit,
            page: self.page,
            from: self.from,
            extended: self.extended,
            to: Some(to),
            method: self.method,
        }
    }

    /// The per-operation invariants checked before dispatch.
    pub open spec fn valid(&self) -> bool {
        &&& self.username is Some
    }

    /// The fields this request contributes to the wire.
    pub open spec fn param_map(&self) -> Map<Seq<char>, Seq<char>> {
        opt_insert_u64(opt_insert_u32(opt_insert_u64(opt_insert_u32(opt_insert_u32(opt_insert(Map::empty(), "user"@, self.username), "limit"@, self.limit), "page"@, self.page), "from"@, self.from), "extended"@, self.extended), "to"@, self.to)
    }

    /// Validate the fields, drain them into a parameter set, and assemble
    /// the dispatched call.
    pub fn prepare(self) -> (r: Result<PreparedRequest, LastfmError>)
        ensures
            !self.valid() ==> (r matches Err(e) && e matches LastfmError::Generic(_)),
            (self.username is None) ==> (r matches Err(e)
                && e matches LastfmError::Generic(m) && m@ == "Username is required."@),
            self.valid() && self.method.requires_auth_spec() && self.lastfm.sk is None ==> (
            r matches Err(e) && e matches LastfmError::Generic(_)),
            self.valid() && !(self.method.requires_auth_spec() && self.lastfm.sk is None) ==> (
            r matches Ok(p) && p.params.wf() && p.verb == HttpVerb::Get && p.params@
                == prepared_params(
                self.param_map(),
                self.method,
                self.lastfm.api_key@,
                self.lastfm.sk_view(),
                self.lastfm.api_secret@,
            )),
    {
        if self.username.is_none() {
            return Err(LastfmError::Generic("Username is required.".to_owned()));
        }
        let UserGetRecentTracks { lastfm, username, limit, page, from, extended, to, method } = self;
        let limit_value = match limit {
            Some(n) => Some(u64_to_dec(n as u64)),
            None => None,
        };
        let page_value = match page {
            Some(n) => Some(u64_to_dec(n as u64)),
            None => None,
        };
        let from_value = match from {
            Some(n) => Some(u64_to_dec(n)),
            None => None,
        };
        let extended_value = match extended {
            Some(n) => Some(u64_to_dec(n as u64)),
            None => None,
        };
        let to_value = match to {
            Some(n) => Some(u64_to_dec(n)),
            None => None,
        };
        let params = ParameterBuilder::new()
            .add_optional("user", username)
            .add_optional("limit", limit_value)
            .add_optional("page", page_value)
            .add_optional("from", from_value)
            .add_optional("extended", extended_value)
            .add_optional("to", to_value)
            .build();
        lastfm.prepare_request(&method, params, HttpVerb::Get)
    }
}

/// A user's top albums.
#[derive(Debug)]
pub struct UserGetTopAlbums<'a> {
    pub lastfm: &'a Lastfm,
    pub artist: Option<String>,
    pub mbid: Option<String>,
    pub autocorrect: Option<bool>,
    pub limit: Option<i64>,
    pub page: Option<i64>,
    pub method: LastfmMethod,
}

impl<'a> UserGetTopAlbums<'a> {
    pub fn new(lastfm: &'a Lastfm) -> (r: Self)
        ensures
            r.lastfm == lastfm,
            r.artist is None,
            r.mbid is None,
            r.autocorrect == Some(false),
            r.limit is None,
            r.page is None,
            r.method is UserGetTopAlbums,
    {
        UserGetTopAlbums {
            lastfm,
            artist: None,
            mbid: None,
            autocorrect: Some(false),
            limit: None,
            page: None,
            method: LastfmMethod::UserGetTopAlbums,
        }
    }

    pub fn artist(self, artist: &str) -> (r: Self)
        ensures
            r.artist matches Some(v) && v@ == artist@,
            r.mbid == self.mbid,
            r.autocorrect == self.autocorrect,
            r.limit == self.limit,
            r.page == self.page,
            r.lastfm == self.lastfm,
            r.method == self.method,
    {
        UserGetTopAlbums {
            lastfm: self.lastfm,
            artist: Some(artist.to_owned()),
            mbid: self.mbid,
            autocorrect: self.autocorrect,
            limit: self.limit,
            page: self.page,
            method: self.method,
        }
    }

    pub fn mbid(self, mbid: &str) -> (r: Self)
        ensures
            r.mbid matches Some(v) && v@ == mbid@,
            r.artist == self.artist,
            r.autocorrect == self.autocorrect,
            r.limit == self.limit,
            r.page == self.page,
            r.lastfm == self.lastfm,
            r.method == self.method,
    {
        UserGetTopAlbums {
            lastfm: self.lastfm,
            artist: self.artist,
            mbid: Some(mbid.to_owned()),
            autocorrect: self.autocorrect,
            limit: self.limit,
            page: self.page,
            method: self.method,
        }
    }

    pub fn autocorrect(self, autocorrect: bool) -> (r: Self)
        ensures
            r.autocorrect == Some(autocorrect),
            r.artist == self.artist,
            r.mbid == self.mbid,
            r.limit == self.limit,
            r.page == self.page,
            r.lastfm == self.lastfm,
            r.method == self.method,
    {
        UserGetTopAlbums {
            lastfm: self.lastfm,
            artist: self.artist,
            mbid: self.mbid,
            autocorrect: Some(autocorrect),
            limit: self.limit,
            page: self.page,
            method: self.method,
        }
    }

    pub fn limit(self, limit: i64) -> (r: Self)
        ensures
            r.limit == Some(limit),
            r.artist == self.artist,
            r.mbid == self.mbid,
            r.autocorrect == self.autocorrect,
            r.page == self.page,
            r.lastfm == self.lastfm,
            r.method == self.method,
    {
        UserGetTopAlbums {
            lastfm: self.lastfm,
            artist: self.artist,
            mbid: self.mbid,
            autocorrect: self.autocorrect,
            limit: Some(limit),
            page: self.page,
            method: self.method,
        }
    }

    pub fn page(self, page: i64) -> (r: Self)
        ensures
            r.page == Some(page),
            r.artist == self.artist,
            r.mbid == self.mbid,
            r.autocorrect == self.autocorrect,
            r.limit == self.limit,
            r.lastfm == self.lastfm,
            r.method == self.method,
    {
        UserGetTopAlbums {
            lastfm: self.lastfm,
            artist: self.artist,
            mbid: self.mbid,
            autocorrect: self.autocorrect,
            limit: self.limit,
            page: Some(page),
            method: self.method,
        }
    }

    /// The per-operation invariants checked before dispatch.
    pub open spec fn valid(&self) -> bool {
        &&& self.mbid is Some || self.artist is Some
    }

    /// The fields this request contributes to the wire.
    pub open spec fn param_map(&self) -> Map<Seq<char>, Seq<char>> {
        opt_insert_i64(opt_insert_i64(opt_insert_bool(opt_insert(opt_insert(Map::empty(), "artist"@, self.artist), "mbid"@, self.mbid), "autocorrect"@, self.autocorrect), "limit"@, self.limit), "page"@, self.page)
    }

    /// Validate the fields, drain them into a parameter set, and assemble
    /// the dispatched call.
    pub fn prepare(self) -> (r: Result<PreparedRequest, LastfmError>)
        ensures
            !self.valid() ==> (r matches Err(e) && e matches LastfmError::Generic(_)),
            (self.mbid is None && self.artist is None) ==> (r matches Err(e)
                && e matches LastfmError::Generic(m) && m@ == "Either 'mbid' or 'artist' must be provided."@),
            self.valid() && self.method.requires_auth_spec() && self.lastfm.sk is None ==> (
            r matches Err(e) && e matches LastfmError::Generic(_)),
            self.valid() && !(self.method.requires_auth_spec() && self.lastfm.sk is None) ==> (
            r matches Ok(p) && p.params.wf() && p.verb == HttpVerb::Get && p.params@
                == prepared_params(
                self.param_map(),
                self.method,
                self.lastfm.api_key@,
                self.lastfm.sk_view(),
                self.lastfm.api_secret@,
            )),
    {
        if self.mbid.is_none() && self.artist.is_none() {
            return Err(LastfmError::Generic("Either 'mbid' or 'artist' must be provided.".to_owned()));
        }
        let UserGetTopAlbums { lastfm, artist, mbid, autocorrect, limit, page, method } = self;
        let autocorrect_value = match autocorrect {
            Some(v) => Some(bool_to_str(v)),
            None => None,
        };
        let limit_value = match limit {
            Some(n) => Some(i64_to_dec(n)),
            None => None,
        };
        let page_value = match page {
            Some(n) => Some(i64_to_dec(n)),
            None => None,
        };
        let params = ParameterBuilder::new()
            .add_optional("artist", artist)
            .add_optional("mbid", mbid)
            .add_optional("autocorrect", autocorrect_value)
            .add_optional("limit", limit_value)
            .add_optional("page", page_value)
            .build();
        lastfm.prepare_request(&method, params, HttpVerb::Get)
    }
}

/// A user's top tags.
#[derive(Debug)]
pub struct UserGetTopTags<'a> {
    pub lastfm: &'a Lastfm,
    pub artist: Option<String>,
    pub mbid: Option<String>,
    pub autocorrect: Option<bool>,
    pub method: LastfmMethod,
}

impl<'a> UserGetTopTags<'a> {
    pub fn new(lastfm: &'a Lastfm) -> (r: Self)
        ensures
            r.lastfm == lastfm,
            r.artist is None,
            r.mbid is None,
            r.autocorrect == Some(false),
            r.method is UserGetTopTags,
    {
        UserGetTopTags {
            lastfm,
            artist: None,
            mbid: None,
            autocorrect: Some(false),
            method: LastfmMethod::UserGetTopTags,
        }
    }

    pub fn artist(self, artist: &str) -> (r: Self)
        ensures
            r.artist matches Some(v) && v@ == artist@,
            r.mbid == self.mbid,
            r.autocorrect == self.autocorrect,
            r.lastfm == self.lastfm,
            r.method == self.method,
    {
        UserGetTopTags {
            lastfm: self.lastfm,
            artist: Some(artist.to_owned()),
            mbid: self.mbid,
            autocorrect: self.autocorrect,
            method: self.method,
        }
    }

    pub fn mbid(self, mbid: &str) -> (r: Self)
        ensures
            r.mbid matches Some(v) && v@ == mbid@,
            r.artist == self.artist,
            r.autocorrect == self.autocorrect,
            r.lastfm == self.lastfm,
            r.method == self.method,
    {
        UserGetTopTags {
            lastfm: self.lastfm,
            artist: self.artist,
            mbid: Some(mbid.to_owned()),
            autocorrect: self.autocorrect,
            method: self.method,
        }
    }

    pub fn autocorrect(self, autocorrect: bool) -> (r: Self)
        ensures
            r.autocorrect == Some(autocorrect),
            r.artist == self.artist,
            r.mbid == self.mbid,
            r.lastfm == self.lastfm,
            r.method == self.method,
    {
        UserGetTopTags {
            lastfm: self.lastfm,
            artist: self.artist,
            mbid: self.mbid,
            autocorrect: Some(autocorrect),
            method: self.method,
        }
    }

    /// The per-operation invariants checked before dispatch.
    pub open spec fn valid(&self) -> bool {
        &&& self.mbid is Some || self.artist is Some
    }

    /// The fields this request contributes to the wire.
    pub open spec fn param_map(&self) -> Map<Seq<char>, Seq<char>> {
        opt_insert_bool(opt_insert(opt_insert(Map::empty(), "artist"@, self.artist), "mbid"@, self.mbid), "autocorrect"@, self.autocorrect)
    }

    /// Validate the fields, drain them into a parameter set, and assemble
    /// the dispatched call.
    pub fn prepare(self) -> (r: Result<PreparedRequest, LastfmError>)
        ensures
            !self.valid() ==> (r matches Err(e) && e matches LastfmError::Generic(_)),
            (self.mbid is None && self.artist is None) ==> (r matches Err(e)
                && e matches LastfmError::Generic(m) && m@ == "Either 'mbid' or 'artist' must be provided."@),
            self.valid() && self.method.requires_auth_spec() && self.lastfm.sk is None ==> (
            r matches Err(e) && e matches LastfmError::Generic(_)),
            self.valid() && !(self.method.requires_auth_spec() && self.lastfm.sk is None) ==> (
            r matches Ok(p) && p.params.wf() && p.verb == HttpVerb::Get && p.params@
                == prepared_params(
                self.param_map(),
                self.method,
                self.lastfm.api_key@,
                self.lastfm.sk_view(),
                self.lastfm.api_secret@,
            )),
    {
        if self.mbid.is_none() && self.artist.is_none() {
            return Err(LastfmError::Generic("Either 'mbid' or 'artist' must be provided.".to_owned()));
        }
        let UserGetTopTags { lastfm, artist, mbid, autocorrect, method } = self;
        let autocorrect_value = match autocorrect {
            Some(v) => Some(bool_to_str(v)),
            None => None,
        };
        let params = ParameterBuilder::new()
            .add_optional("artist", artist)
            .add_optional("mbid", mbid)
            .add_optional("autocorrect", autocorrect_value)
            .build();
        lastfm.prepare_request(&method, params, HttpVerb::Get)
    }
}

/// A user's weekly artist chart.
#[derive(Debug)]
pub struct UserGetWeeklyArtistChart<'a> {
    pub lastfm: &'a Lastfm,
    pub user: Option<String>,
    pub from: Option<String>,
    pub to: Option<String>,
    pub method: LastfmMethod,
}

impl<'a> UserGetWeeklyArtistChart<'a> {
    pub fn new(lastfm: &'a Lastfm) -> (r: Self)
        ensures
            r.lastfm == lastfm,
            r.user is None,
            r.from is None,
            r.to is None,
            r.method is UserGetWeeklyArtistChart,
    {
        UserGetWeeklyArtistChart {
            lastfm,
            user: None,
            from: None,
            to: None,
            method: LastfmMethod::UserGetWeeklyArtistChart,
        }
    }

    pub fn user(self, user: &str) -> (r: Self)
        ensures
            r.user matches Some(v) && v@ == user@,
            r.from == self.from,
            r.to == self.to,
            r.lastfm == self.lastfm,
            r.method == self.method,
    {
        UserGetWeeklyArtistChart {
            lastfm: self.lastfm,
            user: Some(user.to_owned()),
            from: self.from,
            to: self.to,
            method: self.method,
        }
    }

    pub fn from(self, from: &str) -> (r: Self)
        ensures
            r.from matches Some(v) && v@ == from@,
            r.user == self.user,
            r.to == self.to,
            r.lastfm == self.lastfm,
            r.method == self.method,
    {
        UserGetWeeklyArtistChart {
            lastfm: self.lastfm,
            user: self.user,
            from: Some(from.to_owned()),
            to: self.to,
            method: self.method,
        }
    }

    pub fn to(self, to: &str) -> (r: Self)
        ensures
            r.to matches Some(v) && v@ == to@,
            r.user == self.user,
            r.from == self.from,
            r.lastfm == self.lastfm,
            r.method == self.method,
    {
        UserGetWeeklyArtistChart {
            lastfm: self.lastfm,
            user: self.user,
            from: self.from,
            to: Some(to.to_owned()),
            method: self.method,
        }
    }

    /// The per-operation invariants checked before dispatch.
    pub open spec fn valid(&self) -> bool {
        &&& self.user is Some
    }

    /// The fields this request contributes to the wire.
    pub open spec fn param_map(&self) -> Map<Seq<char>, Seq<char>> {
        opt_insert(opt_insert(opt_insert(Map::empty(), "user"@, self.user), "from"@, self.from), "to"@, self.to)
    }

    /// Validate the fields, drain them into a parameter set, and assemble
    /// the dispatched call.
    pub fn prepare(self) -> (r: Result<PreparedRequest, LastfmError>)
        ensures
            !self.valid() ==> (r matches Err(e) && e matches LastfmError::Generic(_)),
            (self.user is None) ==> (r matches Err(e)
                && e matches LastfmError::Generic(m) && m@ == "Username is required."@),
            self.valid() && self.method.requires_auth_spec() && self.lastfm.sk is None ==> (
            r matches Err(e) && e matches LastfmError::Generic(_)),
            self.valid() && !(self.method.requires_auth_spec() && self.lastfm.sk is None) ==> (
            r matches Ok(p) && p.params.wf() && p.verb == HttpVerb::Get && p.params@
                == prepared_params(
                self.param_map(),
                self.method,
                self.lastfm.api_key@,
                self.lastfm.sk_view(),
                self.lastfm.api_secret@,
            )),
    {
        if self.user.is_none() {
            return Err(LastfmError::Generic("Username is required.".to_owned()));
        }
        let UserGetWeeklyArtistChart { lastfm, user, from, to, method } = self;
        let params = ParameterBuilder::new()
            .add_optional("user", user)
            .add_optional("from", from)
            .add_optional("to", to)
            .build();
        lastfm.prepare_request(&method, params, HttpVerb::Get)
    }
}

/// The date ranges a user's weekly charts cover.
#[derive(Debug)]
pub struct UserGetWeeklyChartList<'a> {
    pub lastfm: &'a Lastfm,
    pub user: Option<String>,
    pub method: LastfmMethod,
}

impl<'a> UserGetWeeklyChartList<'a> {
    pub fn new(lastfm: &'a Lastfm) -> (r: Self)
        ensures
            r.lastfm == lastfm,
            r.user is None,
            r.method is UserGetWeeklyChartList,
    {
        UserGetWeeklyChartList {
            lastfm,
            user: None,
            method: LastfmMethod::UserGetWeeklyChartList,
        }
    }

    pub fn user(self, user: &str) -> (r: Self)
        ensures
            r.user matches Some(v) && v@ == user@,
            r.lastfm == self.lastfm,
            r.method == self.method,
    {
        UserGetWeeklyChartList {
            lastfm: self.lastfm,
            user: Some(user.to_owned()),
            method: self.method,
        }
    }

    /// The per-operation invariants checked before dispatch.
    pub open spec fn valid(&self) -> bool {
        &&& self.user is Some
    }

    /// The fields this request contributes to the wire.
    pub open spec fn param_map(&self) -> Map<Seq<char>, Seq<char>> {
        opt_insert(Map::empty(), "user"@, self.user)
    }

    /// Validate the fields, drain them into a parameter set, and assemble
    /// the dispatched call.
    pub fn prepare(self) -> (r: Result<PreparedRequest, LastfmError>)
        ensures
            !self.valid() ==> (r matches Err(e) && e matches LastfmError::Generic(_)),
            (self.user is None) ==> (r matches Err(e)
                && e matches LastfmError::Generic(m) && m@ == "Username is required."@),
            self.valid() && self.method.requires_auth_spec() && self.lastfm.sk is None ==> (
            r matches Err(e) && e matches LastfmError::Generic(_)),
            self.valid() && !(self.method.requires_auth_spec() && self.lastfm.sk is None) ==> (
            r matches Ok(p) && p.params.wf() && p.verb == HttpVerb::Get && p.params@
                == prepared_params(
                self.param_map(),
                self.method,
                self.lastfm.api_key@,
                self.lastfm.sk_view(),
                self.lastfm.api_secret@,
            )),
    {
        if self.user.is_none() {
            return Err(LastfmError::Generic("Username is required.".to_owned()));
        }
        let UserGetWeeklyChartList { lastfm, user, method } = self;
        let params = ParameterBuilder::new()
            .add_optional("user", user)
            .build();
        lastfm.prepare_request(&method, params, HttpVerb::Get)
    }
}

/// A user's weekly track chart.
#[derive(Debug)]
pub struct UserGetWeeklyTrackChart<'a> {
    pub lastfm: &'a Lastfm,
    pub user: Option<String>,
    pub from: Option<String>,
    pub to: Option<String>,
    pub method: LastfmMethod,
}

impl<'a> UserGetWeeklyTrackChart<'a> {
    pub fn new(lastfm: &'a Lastfm) -> (r: Self)
        ensures
            r.lastfm == lastfm,
            r.user is None,
            r.from is None,
            r.to is None,
            r.method is UserGetWeeklyTrackChart,
    {
        UserGetWeeklyTrackChart {
            lastfm,
            user: None,
            from: None,
            to: None,
            method: LastfmMethod::UserGetWeeklyTrackChart,
        }
    }

    pub fn user(self, user: &str) -> (r: Self)
        ensures
            r.user matches Some(v) && v@ == user@,
            r.from == self.from,
            r.to == self.to,
            r.lastfm == self.lastfm,
            r.method == self.method,
    {
        UserGetWeeklyTrackChart {
            lastfm: self.lastfm,
            user: Some(user.to_owned()),
            from: self.from,
            to: self.to,
            method: self.method,
        }
    }

    pub fn from(self, from: &str) -> (r: Self)
        ensures
            r.from matches Some(v) && v@ == from@,
            r.user == self.user,
            r.to == self.to,
            r.lastfm == self.lastfm,
            r.method == self.method,
    {
        UserGetWeeklyTrackChart {
            lastfm: self.lastfm,
            user: self.user,
            from: Some(from.to_owned()),
            to: self.to,
            method: self.method,
        }
    }

    pub fn to(self, to: &str) -> (r: Self)
        ensures
            r.to matches Some(v) && v@ == to@,
            r.user == self.user,
            r.from == self.from,
            r.lastfm == self.lastfm,
            r.method == self.method,
    {
        UserGetWeeklyTrackChart {
            lastfm: self.lastfm,
            user: self.user,
            from: self.from,
            to: Some(to.to_owned()),
            method: self.method,
        }
    }

    /// The per-operation invariants checked before dispatch.
    pub open spec fn valid(&self) -> bool {
        &&& self.user is Some
    }

    /// The fields this request contributes to the wire.
    pub open spec fn param_map(&self) -> Map<Seq<char>, Seq<char>> {
        opt_insert(opt_insert(opt_insert(Map::empty(), "user"@, self.user), "from"@, self.from), "to"@, self.to)
    }

    /// Validate the fields, drain them into a parameter set, and assemble
    /// the dispatched call.
    pub fn prepare(self) -> (r: Result<PreparedRequest, LastfmError>)
        ensures
            !self.valid() ==> (r matches Err(e) && e matches LastfmError::Generic(_)),
            (self.user is None) ==> (r matches Err(e)
                && e matches LastfmError::Generic(m) && m@ == "Username is required."@),
            self.valid() && self.method.requires_auth_spec() && self.lastfm.sk is None ==> (
            r matches Err(e) && e matches LastfmError::Generic(_)),
            self.valid() && !(self.method.requires_auth_spec() && self.lastfm.sk is None) ==> (
            r matches Ok(p) && p.params.wf() && p.verb == HttpVerb::Get && p.params@
                == prepared_params(
                self.param_map(),
                self.method,
                self.lastfm.api_key@,
                self.lastfm.sk_view(),
                self.lastfm.api_secret@,
            )),
    {
        if self.user.is_none() {
            return Err(LastfmError::Generic("Username is required.".to_owned()));
        }
        let UserGetWeeklyTrackChart { lastfm, user, from, to, method } = self;
        let params = ParameterBuilder::new()
            .add_optional("user", user)
            .add_optional("from", from)
            .add_optional("to", to)
            .build();
        lastfm.prepare_request(&method, params, HttpVerb::Get)
    }
}

} // verus!
