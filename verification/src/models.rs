//! The response model layer: the fixed shapes known replies decode into.
//! These are plain data; the serializing layer around the library carries
//! its own annotated copies of them.

use vstd::prelude::*;

verus! {

/// The reply of the token-issuance operation.
#[derive(Debug, Clone, PartialEq)]
pub struct AuthGetTokenResponse {
    pub token: String,
}

/// The reply of the album-info operation.
#[derive(Debug, Clone, PartialEq)]
pub struct AlbumGetInfoResponse {
    pub album: AlbumInfo,
}

/// An album with its metadata.
#[derive(Debug, Clone, PartialEq)]
pub struct AlbumInfo {
    pub artist: String,
    pub image: Vec<Image>,
    pub listeners: String,
    pub mbid: String,
    pub name: String,
    pub playcount: String,
    pub tags: TagList,
    pub tracks: TrackList,
    pub url: String,
    pub userplaycount: i64,
    pub wiki: Wiki,
}

/// One artwork rendition: its URL and named size.
#[derive(Debug, Clone, PartialEq)]
pub struct Image {
    pub text: String,
    pub size: String,
}

/// The tags attached to an entity.
#[derive(Debug, Clone, PartialEq)]
pub struct TagList {
    pub tag: Vec<TagRef>,
}

/// One tag: its name and URL.
#[derive(Debug, Clone, PartialEq)]
pub struct TagRef {
    pub name: String,
    pub url: String,
}

/// The track listing of an album.
#[derive(Debug, Clone, PartialEq)]
pub struct TrackList {
    pub track: Vec<TrackEntry>,
}

/// One track of an album's listing.
#[derive(Debug, Clone, PartialEq)]
pub struct TrackEntry {
    pub attr: Attr,
    pub artist: ArtistRef,
    pub duration: i64,
    pub name: String,
    pub streamable: Streamable,
    pub url: String,
}

/// The rank annotation beside a track.
#[derive(Debug, Clone, PartialEq)]
pub struct Attr {
    pub rank: i64,
}

/// One artist reference: identifier, name and URL.
#[derive(Debug, Clone, PartialEq)]
pub struct ArtistRef {
    pub mbid: String,
    pub name: String,
    pub url: String,
}

/// Whether a track can be streamed, and whether in full.
#[derive(Debug, Clone, PartialEq)]
pub struct Streamable {
    pub text: String,
    pub fulltrack: String,
}

/// The wiki section of an album's metadata.
#[derive(Debug, Clone, PartialEq)]
pub struct Wiki {
    pub content: String,
    pub published: String,
    pub summary: String,
}

/// The reply of the album-tags operation.
#[derive(Debug, Clone, PartialEq)]
pub struct AlbumGetTagsResponse {
    pub tags: TaggedBy,
}

/// The tags one user attached to an album.
#[derive(Debug, Clone, PartialEq)]
pub struct TaggedBy {
    pub tag: Vec<TagRef>,
    pub attr: AlbumArtistAttr,
}

/// The album and artist a tag listing belongs to.
#[derive(Debug, Clone, PartialEq)]
pub struct AlbumArtistAttr {
    pub artist: String,
    pub album: String,
}

/// The reply of the album-top-tags operation.
#[derive(Debug, Clone, PartialEq)]
pub struct AlbumGetTopTagsResponse {
    pub toptags: TopTags,
}

/// The most applied tags of an entity, with counts.
#[derive(Debug, Clone, PartialEq)]
pub struct TopTags {
    pub attr: AlbumArtistAttr,
    pub tag: Vec<CountedTag>,
}

/// One tag with how often it was applied.
#[derive(Debug, Clone, PartialEq)]
pub struct CountedTag {
    pub count: i64,
    pub name: String,
    pub url: String,
}

} // verus!
