//! A typed client for the Last.fm web service: request construction,
//! authentication signing, and response classification, with verified
//! contracts on the whole pipeline.

use vstd::prelude::*;

mod api;
mod catalog;
mod client;
mod dispatch;
mod error;
mod fmtnum;
mod jsonext;
mod lexical;
mod models;
mod params;
mod response;
mod signing;

pub use api::{Album, AlbumAddTagsRequest, AlbumGetInfo, AlbumGetTags, AlbumGetTopTags,
    AlbumRemoveTag, AlbumSearch};
pub use api::{Artist, ArtistGetCorrection, ArtistGetInfo, ArtistGetSimilar, ArtistGetTopTags,
    ArtistGetTopTracks, ArtistRemoveTag, ArtistSearch};
pub use api::{Auth, AuthGetSession, AuthGetToken};
pub use api::{Chart, ChartGetTopArtists};
pub use api::{Geo, GeoGetTopTracks};
pub use api::{Library, LibraryGetArtists};
pub use api::{Tag, TagGetInfo, TagGetSimilar, TagGetTopAlbums, TagGetTopTags,
    TagGetWeeklyChartList};
pub use api::{Track, TrackAddTags, TrackGetCorrection, TrackGetTags, TrackGetTopTags, TrackLove,
    TrackScrobble, TrackSearch, TrackUpdateNowPlaying};
pub use api::{User, UserGetFriends, UserGetInfo, UserGetLovedTracks, UserGetPersonalTags,
    UserGetRecentTracks, UserGetTopAlbums, UserGetTopTags, UserGetWeeklyArtistChart,
    UserGetWeeklyChartList, UserGetWeeklyTrackChart};
pub use api::ParameterBuilder;
pub use catalog::LastfmMethod;
pub use client::{Lastfm, LastfmBuilder};
pub use dispatch::{HttpVerb, PreparedRequest};
pub use error::{ApiError, LastfmError};
pub use models::{AlbumGetInfoResponse, AlbumGetTagsResponse, AlbumGetTopTagsResponse,
    AuthGetTokenResponse, Image, Attr, Streamable, Wiki};
pub use params::ParameterSet;
pub use response::{classify_reply, classify_value, APIResponse};

verus! {

/// The fixed base endpoint every request is sent to.
pub const LASTFM_API_URL: &'static str = "http://ws.audioscrobbler.com/2.0/";

} // verus!
