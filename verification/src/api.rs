//! The per-operation request builders, one thin instantiation of the same
//! pattern for each remote operation: chainable setters, validation at send
//! time, and a terminal step that drains the fields into a parameter set and
//! hands it to the dispatch engine.

use vstd::prelude::*;

mod album;
mod artist;
mod auth;
mod chart;
mod geo;
mod library;
mod tag;
mod track;
mod user;

pub use crate::params::ParameterBuilder;
pub use album::{Album, AlbumAddTagsRequest, AlbumGetInfo, AlbumGetTags, AlbumGetTopTags,
    AlbumRemoveTag, AlbumSearch};
pub use artist::{Artist, ArtistGetCorrection, ArtistGetInfo, ArtistGetSimilar, ArtistGetTopTags,
    ArtistGetTopTracks, ArtistRemoveTag, ArtistSearch};
pub use auth::{Auth, AuthGetSession, AuthGetToken};
pub use chart::{Chart, ChartGetTopArtists};
pub use geo::{Geo, GeoGetTopTracks};
pub use library::{Library, LibraryGetArtists};
pub use tag::{Tag, TagGetInfo, TagGetSimilar, TagGetTopAlbums, TagGetTopTags,
    TagGetWeeklyChartList};
pub use track::{Track, TrackAddTags, TrackGetCorrection, TrackGetTags, TrackGetTopTags,
    TrackLove, TrackScrobble, TrackSearch, TrackUpdateNowPlaying};
pub use user::{User, UserGetFriends, UserGetInfo, UserGetLovedTracks, UserGetPersonalTags,
    UserGetRecentTracks, UserGetTopAlbums, UserGetTopTags, UserGetWeeklyArtistChart,
    UserGetWeeklyChartList, UserGetWeeklyTrackChart};

verus! {

/// The categories of operations a client context offers.
impl crate::client::Lastfm {
    /// Album operations on this context.
    pub fn album(&self) -> (r: Album<'_>)
        ensures
            r.lastfm == self,
    {
        Album::new(self)
    }

    /// Artist operations on this context.
    pub fn artist(&self) -> (r: Artist<'_>)
        ensures
            r.lastfm == self,
    {
        Artist::new(self)
    }

    /// Authentication operations on this context.
    pub fn auth(&self) -> (r: Auth<'_>)
        ensures
            r.lastfm == self,
    {
        Auth::new(self)
    }

    /// Chart operations on this context.
    pub fn chart(&self) -> (r: Chart<'_>)
        ensures
            r.lastfm == self,
    {
        Chart::new(self)
    }

    /// Geographic operations on this context.
    pub fn geo(&self) -> (r: Geo<'_>)
        ensures
            r.lastfm == self,
    {
        Geo::new(self)
    }

    /// Library operations on this context.
    pub fn library(&self) -> (r: Library<'_>)
        ensures
            r.lastfm == self,
    {
        Library::new(self)
    }

    /// Tag operations on this context.
    pub fn tag(&self) -> (r: Tag<'_>)
        ensures
            r.lastfm == self,
    {
        Tag::new(self)
    }

    /// Track operations on this context.
    pub fn track(&self) -> (r: Track<'_>)
        ensures
            r.lastfm == self,
    {
        Track::new(self)
    }

    /// User operations on this context.
    pub fn user(&self) -> (r: User<'_>)
        ensures
            r.lastfm == self,
    {
        User::new(self)
    }
}

/// Insert an optional field into a parameter mapping: present values are
/// recorded, absent ones leave the mapping unchanged.
pub open spec fn opt_insert(
    m: Map<Seq<char>, Seq<char>>,
    k: Seq<char>,
    v: Option<String>,
) -> Map<Seq<char>, Seq<char>> {
    match v {
        Some(s) => m.insert(k, s@),
        None => m,
    }
}

/// Insert an optional signed number, rendered in decimal.
pub open spec fn opt_insert_i64(
    m: Map<Seq<char>, Seq<char>>,
    k: Seq<char>,
    v: Option<i64>,
) -> Map<Seq<char>, Seq<char>> {
    match v {
        Some(n) => m.insert(k, crate::fmtnum::dec_int(n as int)),
        None => m,
    }
}

/// Insert an optional unsigned number, rendered in decimal.
pub open spec fn opt_insert_u64(
    m: Map<Seq<char>, Seq<char>>,
    k: Seq<char>,
    v: Option<u64>,
) -> Map<Seq<char>, Seq<char>> {
    match v {
        Some(n) => m.insert(k, crate::fmtnum::dec_digits(n as nat)),
        None => m,
    }
}

/// Insert an optional page-sized number, rendered in decimal.
pub open spec fn opt_insert_u32(
    m: Map<Seq<char>, Seq<char>>,
    k: Seq<char>,
    v: Option<u32>,
) -> Map<Seq<char>, Seq<char>> {
    match v {
        Some(n) => m.insert(k, crate::fmtnum::dec_digits(n as nat)),
        None => m,
    }
}

/// Insert an optional byte-sized number, rendered in decimal.
pub open spec fn opt_insert_u8(
    m: Map<Seq<char>, Seq<char>>,
    k: Seq<char>,
    v: Option<u8>,
) -> Map<Seq<char>, Seq<char>> {
    match v {
        Some(n) => m.insert(k, crate::fmtnum::dec_digits(n as nat)),
        None => m,
    }
}

/// Insert an optional boolean, rendered in lowercase.
pub open spec fn opt_insert_bool(
    m: Map<Seq<char>, Seq<char>>,
    k: Seq<char>,
    v: Option<bool>,
) -> Map<Seq<char>, Seq<char>> {
    match v {
        Some(b) => m.insert(k, crate::fmtnum::bool_chars(b)),
        None => m,
    }
}

/// How many commas a string holds.
pub open spec fn comma_count(s: Seq<char>) -> nat
    decreases s.len(),
{
    if s.len() == 0 {
        0
    } else {
        comma_count(s.drop_last()) + (if s.last() == ',' {
            1nat
        } else {
            0nat
        })
    }
}

/// How many entries a comma-delimited list holds: one more than its commas,
/// so the empty string counts as one (empty) entry.
pub open spec fn tag_count(s: Seq<char>) -> int {
    comma_count(s) as int + 1
}

/// Count the commas of a string.
pub fn count_commas(s: &str) -> (n: usize)
    ensures
        n == comma_count(s@),
{
    let len = s.unicode_len();
    let mut n: usize = 0;
    let mut i: usize = 0;
    proof {
        assert(s@.take(0) =~= Seq::<char>::empty());
    }
    while i < len
        invariant
            i <= len,
            len == s@.len(),
            n <= i,
            n == comma_count(s@.take(i as int)),
        decreases len - i,
    {
        let c = s.get_char(i);
        proof {
            assert(s@.take(i as int + 1).drop_last() =~= s@.take(i as int));
            assert(s@.take(i as int + 1).last() == s@[i as int]);
        }
        if c == ',' {
            n = n + 1;
        }
        i = i + 1;
    }
    proof {
        assert(s@.take(len as int) =~= s@);
    }
    n
}

} // verus!
