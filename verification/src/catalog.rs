//! The operation catalog: the closed set of remote operations, each with its
//! canonical wire name (sent verbatim as the `method` parameter) and its
//! authentication requirement. Every state-mutating operation requires a
//! signed, authenticated call; read-only lookups and the token-acquisition
//! steps do not.

use vstd::prelude::*;

verus! {

/// One named remote operation.
#[derive(Debug, Clone)]
pub enum LastfmMethod {
    AlbumAddTags,
    AlbumGetInfo,
    AlbumGetTags,
    AlbumGetTopTags,
    AlbumRemoveTag,
    AlbumSearch,
    ArtistAddTags,
    ArtistGetCorrection,
    ArtistGetInfo,
    ArtistGetSimilar,
    ArtistGetTags,
    ArtistGetTopAlbums,
    ArtistGetTopTags,
    ArtistGetTopTracks,
    ArtistRemoveTag,
    ArtistSearch,
    AuthGetMobileSession,
    AuthGetSession,
    AuthGetToken,
    ChartGetTopArtists,
    ChartGetTopTags,
    ChartGetTopTracks,
    GeoGetTopArtists,
    GeoGetTopTracks,
    LibraryGetArtists,
    TagGetInfo,
    TagGetSimilar,
    TagGetTopAlbums,
    TagGetTopArtists,
    TagGetTopTags,
    TagGetTopTracks,
    TagGetWeeklyChartList,
    TrackAddTags,
    TrackGetCorrection,
    TrackGetInfo,
    TrackGetSimilar,
    TrackGetTags,
    TrackGetTopTags,
    TrackLove,
    TrackRemoveTag,
    TrackScrobble,
    TrackSearch,
    TrackUnlove,
    TrackUpdateNowPlaying,
    UserGetFriends,
    UserGetInfo,
    UserGetLovedTracks,
    UserGetPersonalTags,
    UserGetRecentTracks,
    UserGetTopAlbums,
    UserGetTopArtists,
    UserGetTopTags,
    UserGetTopTracks,
    UserGetWeeklyAlbumChart,
    UserGetWeeklyArtistChart,
    UserGetWeeklyChartList,
    UserGetWeeklyTrackChart,
}

impl LastfmMethod {
    /// The canonical wire string of the operation.
    pub open spec fn wire_spec(&self) -> Seq<char> {
        match self {
            LastfmMethod::AlbumAddTags => "album.addTags"@,
            LastfmMethod::AlbumGetInfo => "album.getInfo"@,
            LastfmMethod::AlbumGetTags => "album.getTags"@,
            LastfmMethod::AlbumGetTopTags => "album.getTopTags"@,
            LastfmMethod::AlbumRemoveTag => "album.removeTag"@,
            LastfmMethod::AlbumSearch => "album.search"@,
            LastfmMethod::ArtistAddTags => "artist.addTags"@,
            LastfmMethod::ArtistGetCorrection => "artist.getCorrection"@,
            LastfmMethod::ArtistGetInfo => "artist.getInfo"@,
            LastfmMethod::ArtistGetSimilar => "artist.getSimilar"@,
            LastfmMethod::ArtistGetTags => "artist.getTags"@,
            LastfmMethod::ArtistGetTopAlbums => "artist.getTopAlbums"@,
            LastfmMethod::ArtistGetTopTags => "artist.getTopTags"@,
            LastfmMethod::ArtistGetTopTracks => "artist.getTopTracks"@,
            LastfmMethod::ArtistRemoveTag => "artist.removeTag"@,
            LastfmMethod::ArtistSearch => "artist.search"@,
            LastfmMethod::AuthGetMobileSession => "auth.getMobileSession"@,
            LastfmMethod::AuthGetSession => "auth.getSession"@,
            LastfmMethod::AuthGetToken => "auth.getToken"@,
            LastfmMethod::ChartGetTopArtists => "chart.getTopArtists"@,
            LastfmMethod::ChartGetTopTags => "chart.getTopTags"@,
            LastfmMethod::ChartGetTopTracks => "chart.getTopTracks"@,
            LastfmMethod::GeoGetTopArtists => "geo.getTopArtists"@,
            LastfmMethod::GeoGetTopTracks => "geo.getTopTracks"@,
            LastfmMethod::LibraryGetArtists => "library.getArtists"@,
            LastfmMethod::TagGetInfo => "tag.getInfo"@,
            LastfmMethod::TagGetSimilar => "tag.getSimilar"@,
            LastfmMethod::TagGetTopAlbums => "tag.getTopAlbums"@,
            LastfmMethod::TagGetTopArtists => "tag.getTopArtists"@,
            LastfmMethod::TagGetTopTags => "tag.getTopTags"@,
            LastfmMethod::TagGetTopTracks => "tag.getTopTracks"@,
            LastfmMethod::TagGetWeeklyChartList => "tag.getWeeklyChartList"@,
            LastfmMethod::TrackAddTags => "track.addTags"@,
            LastfmMethod::TrackGetCorrection => "track.getCorrection"@,
            LastfmMethod::TrackGetInfo => "track.getInfo"@,
            LastfmMethod::TrackGetSimilar => "track.getSimilar"@,
            LastfmMethod::TrackGetTags => "track.getTags"@,
            LastfmMethod::TrackGetTopTags => "track.getTopTags"@,
            LastfmMethod::TrackLove => "track.love"@,
            LastfmMethod::TrackRemoveTag => "track.removeTag"@,
            LastfmMethod::TrackScrobble => "track.scrobble"@,
            LastfmMethod::TrackSearch => "track.search"@,
            LastfmMethod::TrackUnlove => "track.unlove"@,
            LastfmMethod::TrackUpdateNowPlaying => "track.updateNowPlaying"@,
            LastfmMethod::UserGetFriends => "user.getFriends"@,
            LastfmMethod::UserGetInfo => "user.getInfo"@,
            LastfmMethod::UserGetLovedTracks => "user.getLovedTracks"@,
            LastfmMethod::UserGetPersonalTags => "user.getPersonalTags"@,
            LastfmMethod::UserGetRecentTracks => "user.getRecentTracks"@,
            LastfmMethod::UserGetTopAlbums => "user.getTopAlbums"@,
            LastfmMethod::UserGetTopArtists => "user.getTopArtists"@,
            LastfmMethod::UserGetTopTags => "user.getTopTags"@,
            LastfmMethod::UserGetTopTracks => "user.getTopTracks"@,
            LastfmMethod::UserGetWeeklyAlbumChart => "user.getWeeklyAlbumChart"@,
            LastfmMethod::UserGetWeeklyArtistChart => "user.getWeeklyArtistChart"@,
            LastfmMethod::UserGetWeeklyChartList => "user.getWeeklyChartList"@,
            LastfmMethod::UserGetWeeklyTrackChart => "user.getWeeklyTrackChart"@,
        }
    }

    /// Whether the operation mutates remote state and therefore requires a
    /// signed, authenticated call.
    pub open spec fn requires_auth_spec(&self) -> bool {
        match self {
            LastfmMethod::AlbumAddTags => true,
            LastfmMethod::AlbumGetInfo => false,
            LastfmMethod::AlbumGetTags => false,
            LastfmMethod::AlbumGetTopTags => false,
            LastfmMethod::AlbumRemoveTag => true,
            LastfmMethod::AlbumSearch => false,
            LastfmMethod::ArtistAddTags => true,
            LastfmMethod::ArtistGetCorrection => false,
            LastfmMethod::ArtistGetInfo => false,
            LastfmMethod::ArtistGetSimilar => false,
            LastfmMethod::ArtistGetTags => false,
            LastfmMethod::ArtistGetTopAlbums => false,
            LastfmMethod::ArtistGetTopTags => false,
            LastfmMethod::ArtistGetTopTracks => false,
            LastfmMethod::ArtistRemoveTag => true,
            LastfmMethod::ArtistSearch => false,
            LastfmMethod::AuthGetMobileSession => false,
            LastfmMethod::AuthGetSession => false,
            LastfmMethod::AuthGetToken => false,
            LastfmMethod::ChartGetTopArtists => false,
            LastfmMethod::ChartGetTopTags => false,
            LastfmMethod::ChartGetTopTracks => false,
            LastfmMethod::GeoGetTopArtists => false,
            LastfmMethod::GeoGetTopTracks => false,
            LastfmMethod::LibraryGetArtists => false,
            LastfmMethod::TagGetInfo => false,
            LastfmMethod::TagGetSimilar => false,
            LastfmMethod::TagGetTopAlbums => false,
            LastfmMethod::TagGetTopArtists => false,
            LastfmMethod::TagGetTopTags => false,
            LastfmMethod::TagGetTopTracks => false,
            LastfmMethod::TagGetWeeklyChartList => false,
            LastfmMethod::TrackAddTags => true,
            LastfmMethod::TrackGetCorrection => false,
            LastfmMethod::TrackGetInfo => false,
            LastfmMethod::TrackGetSimilar => false,
            LastfmMethod::TrackGetTags => false,
            LastfmMethod::TrackGetTopTags => false,
            LastfmMethod::TrackLove => true,
            LastfmMethod::TrackRemoveTag => true,
            LastfmMethod::TrackScrobble => true,
            LastfmMethod::TrackSearch => false,
            LastfmMethod::TrackUnlove => true,
            LastfmMethod::TrackUpdateNowPlaying => true,
            LastfmMethod::UserGetFriends => false,
            LastfmMethod::UserGetInfo => false,
            LastfmMethod::UserGetLovedTracks => false,
            LastfmMethod::UserGetPersonalTags => false,
            LastfmMethod::UserGetRecentTracks => false,
            LastfmMethod::UserGetTopAlbums => false,
            LastfmMethod::UserGetTopArtists => false,
            LastfmMethod::UserGetTopTags => false,
            LastfmMethod::UserGetTopTracks => false,
            LastfmMethod::UserGetWeeklyAlbumChart => false,
            LastfmMethod::UserGetWeeklyArtistChart => false,
            LastfmMethod::UserGetWeeklyChartList => false,
            LastfmMethod::UserGetWeeklyTrackChart => false,
        }
    }

    /// The canonical wire string, as transmitted in the `method` parameter.
    pub fn wire_name(&self) -> (r: String)
        ensures
            r@ == self.wire_spec(),
    {
        match self {
            LastfmMethod::AlbumAddTags => "album.addTags".to_owned(),
            LastfmMethod::AlbumGetInfo => "album.getInfo".to_owned(),
            LastfmMethod::AlbumGetTags => "album.getTags".to_owned(),
            LastfmMethod::AlbumGetTopTags => "album.getTopTags".to_owned(),
            LastfmMethod::AlbumRemoveTag => "album.removeTag".to_owned(),
            LastfmMethod::AlbumSearch => "album.search".to_owned(),
            LastfmMethod::ArtistAddTags => "artist.addTags".to_owned(),
            LastfmMethod::ArtistGetCorrection => "artist.getCorrection".to_owned(),
            LastfmMethod::ArtistGetInfo => "artist.getInfo".to_owned(),
            LastfmMethod::ArtistGetSimilar => "artist.getSimilar".to_owned(),
            LastfmMethod::ArtistGetTags => "artist.getTags".to_owned(),
            LastfmMethod::ArtistGetTopAlbums => "artist.getTopAlbums".to_owned(),
            LastfmMethod::ArtistGetTopTags => "artist.getTopTags".to_owned(),
            LastfmMethod::ArtistGetTopTracks => "artist.getTopTracks".to_owned(),
            LastfmMethod::ArtistRemoveTag => "artist.removeTag".to_owned(),
            LastfmMethod::ArtistSearch => "artist.search".to_owned(),
            LastfmMethod::AuthGetMobileSession => "auth.getMobileSession".to_owned(),
            LastfmMethod::AuthGetSession => "auth.getSession".to_owned(),
            LastfmMethod::AuthGetToken => "auth.getToken".to_owned(),
            LastfmMethod::ChartGetTopArtists => "chart.getTopArtists".to_owned(),
            LastfmMethod::ChartGetTopTags => "chart.getTopTags".to_owned(),
            LastfmMethod::ChartGetTopTracks => "chart.getTopTracks".to_owned(),
            LastfmMethod::GeoGetTopArtists => "geo.getTopArtists".to_owned(),
            LastfmMethod::GeoGetTopTracks => "geo.getTopTracks".to_owned(),
            LastfmMethod::LibraryGetArtists => "library.getArtists".to_owned(),
            LastfmMethod::TagGetInfo => "tag.getInfo".to_owned(),
            LastfmMethod::TagGetSimilar => "tag.getSimilar".to_owned(),
            LastfmMethod::TagGetTopAlbums => "tag.getTopAlbums".to_owned(),
            LastfmMethod::TagGetTopArtists => "tag.getTopArtists".to_owned(),
            LastfmMethod::TagGetTopTags => "tag.getTopTags".to_owned(),
            LastfmMethod::TagGetTopTracks => "tag.getTopTracks".to_owned(),
            LastfmMethod::TagGetWeeklyChartList => "tag.getWeeklyChartList".to_owned(),
            LastfmMethod::TrackAddTags => "track.addTags".to_owned(),
            LastfmMethod::TrackGetCorrection => "track.getCorrection".to_owned(),
            LastfmMethod::TrackGetInfo => "track.getInfo".to_owned(),
            LastfmMethod::TrackGetSimilar => "track.getSimilar".to_owned(),
            LastfmMethod::TrackGetTags => "track.getTags".to_owned(),
            LastfmMethod::TrackGetTopTags => "track.getTopTags".to_owned(),
            LastfmMethod::TrackLove => "track.love".to_owned(),
            LastfmMethod::TrackRemoveTag => "track.removeTag".to_owned(),
            LastfmMethod::TrackScrobble => "track.scrobble".to_owned(),
            LastfmMethod::TrackSearch => "track.search".to_owned(),
            LastfmMethod::TrackUnlove => "track.unlove".to_owned(),
            LastfmMethod::TrackUpdateNowPlaying => "track.updateNowPlaying".to_owned(),
            LastfmMethod::UserGetFriends => "user.getFriends".to_owned(),
            LastfmMethod::UserGetInfo => "user.getInfo".to_owned(),
            LastfmMethod::UserGetLovedTracks => "user.getLovedTracks".to_owned(),
            LastfmMethod::UserGetPersonalTags => "user.getPersonalTags".to_owned(),
            LastfmMethod::UserGetRecentTracks => "user.getRecentTracks".to_owned(),
            LastfmMethod::UserGetTopAlbums => "user.getTopAlbums".to_owned(),
            LastfmMethod::UserGetTopArtists => "user.getTopArtists".to_owned(),
            LastfmMethod::UserGetTopTags => "user.getTopTags".to_owned(),
            LastfmMethod::UserGetTopTracks => "user.getTopTracks".to_owned(),
            LastfmMethod::UserGetWeeklyAlbumChart => "user.getWeeklyAlbumChart".to_owned(),
            LastfmMethod::UserGetWeeklyArtistChart => "user.getWeeklyArtistChart".to_owned(),
            LastfmMethod::UserGetWeeklyChartList => "user.getWeeklyChartList".to_owned(),
            LastfmMethod::UserGetWeeklyTrackChart => "user.getWeeklyTrackChart".to_owned(),
        }
    }

    /// Whether the operation requires a signed, authenticated call.
    pub fn requires_auth(&self) -> (r: bool)
        ensures
            r == self.requires_auth_spec(),
    {
        matches!(
            self,
            LastfmMethod::AlbumAddTags |
            LastfmMethod::AlbumRemoveTag |
            LastfmMethod::ArtistAddTags |
            LastfmMethod::ArtistRemoveTag |
            LastfmMethod::TrackAddTags |
            LastfmMethod::TrackLove |
            LastfmMethod::TrackRemoveTag |
            LastfmMethod::TrackScrobble |
            LastfmMethod::TrackUnlove |
            LastfmMethod::TrackUpdateNowPlaying
        )
    }
}

} // verus!
