use lastfm::{HttpVerb, Lastfm, LastfmMethod, ParameterSet, PreparedRequest};

fn lookup(params: &ParameterSet, key: &str) -> Option<String> {
    let n = params.len();
    let mut i = 0;
    while i < n {
        if params.key_at(i).as_str() == key {
            return Some(params.value_at(i).clone());
        }
        i += 1;
    }
    None
}

fn md5_hex(input: &str) -> String {
    format!("{:x}", md5::compute(input.as_bytes()))
}

fn read_only_client() -> Lastfm {
    Lastfm::builder()
        .api_key("APIKEY".to_string())
        .api_secret("SEC".to_string())
        .build()
        .unwrap()
}

fn session_client() -> Lastfm {
    Lastfm::builder()
        .api_key("APIKEY".to_string())
        .api_secret("SEC".to_string())
        .session_key("SK1".to_string())
        .build()
        .unwrap()
}

#[test]
fn read_call_without_session_key_succeeds() {
    // artist-info lookup is read-only: no session key is needed, and the
    // outgoing GET carries method, api_key, format and the artist alone.
    let lastfm = read_only_client();
    let prepared: PreparedRequest = lastfm
        .artist()
        .get_info()
        .artist("Radiohead")
        .prepare()
        .unwrap();
    assert_eq!(prepared.verb, HttpVerb::Get);
    let p = &prepared.params;
    assert_eq!(lookup(p, "method").unwrap(), "artist.getInfo");
    assert_eq!(lookup(p, "api_key").unwrap(), "APIKEY");
    assert_eq!(lookup(p, "format").unwrap(), "json");
    assert_eq!(lookup(p, "artist").unwrap(), "Radiohead");
    assert!(lookup(p, "sk").is_none());
    assert!(lookup(p, "api_sig").is_none());
}

#[test]
fn read_call_never_carries_credentials() {
    // even with a session key installed, an unauthenticated operation sends
    // neither sk nor api_sig
    let lastfm = session_client();
    let prepared = lastfm
        .artist()
        .get_info()
        .artist("Radiohead")
        .prepare()
        .unwrap();
    assert!(lookup(&prepared.params, "sk").is_none());
    assert!(lookup(&prepared.params, "api_sig").is_none());
}

#[test]
fn write_call_without_session_key_fails_before_network() {
    let lastfm = read_only_client();
    let result = lastfm.track().love().artist("A").track("B").prepare();
    assert!(matches!(result, Err(lastfm::LastfmError::Generic(_))));
}

#[test]
fn write_call_carries_signed_credentials() {
    // track-love for artist A, track B under session key SK1 and secret SEC:
    // the POST body holds sk and the documented signature over the sorted
    // key-value concatenation
    let lastfm = session_client();
    let prepared = lastfm.track().love().artist("A").track("B").prepare().unwrap();
    assert_eq!(prepared.verb, HttpVerb::Post);
    let p = &prepared.params;
    assert_eq!(lookup(p, "sk").unwrap(), "SK1");
    let expected =
        md5_hex("api_keyAPIKEYartistAmethodtrack.loveskSK1trackBSEC");
    assert_eq!(lookup(p, "api_sig").unwrap(), expected);
    assert_eq!(lookup(p, "format").unwrap(), "json");
    assert_eq!(lookup(p, "method").unwrap(), "track.love");
}

#[test]
fn every_write_operation_requires_auth() {
    let writes = [
        LastfmMethod::AlbumAddTags,
        LastfmMethod::AlbumRemoveTag,
        LastfmMethod::ArtistAddTags,
        LastfmMethod::ArtistRemoveTag,
        LastfmMethod::TrackAddTags,
        LastfmMethod::TrackLove,
        LastfmMethod::TrackUnlove,
        LastfmMethod::TrackRemoveTag,
        LastfmMethod::TrackUpdateNowPlaying,
        LastfmMethod::TrackScrobble,
    ];
    for m in writes {
        assert!(m.requires_auth());
    }
    let reads = [
        LastfmMethod::AlbumGetInfo,
        LastfmMethod::ArtistSearch,
        LastfmMethod::AuthGetToken,
        LastfmMethod::AuthGetSession,
        LastfmMethod::UserGetRecentTracks,
    ];
    for m in reads {
        assert!(!m.requires_auth());
    }
}

#[test]
fn wire_names_match_the_catalog() {
    assert_eq!(LastfmMethod::AlbumGetInfo.wire_name(), "album.getInfo");
    assert_eq!(LastfmMethod::TrackScrobble.wire_name(), "track.scrobble");
    assert_eq!(LastfmMethod::AuthGetSession.wire_name(), "auth.getSession");
    assert_eq!(
        LastfmMethod::UserGetWeeklyTrackChart.wire_name(),
        "user.getWeeklyTrackChart"
    );
}

#[test]
fn scrobble_builds_the_full_parameter_set() {
    let lastfm = session_client();
    let prepared = lastfm
        .track()
        .scrobble()
        .artist(Some("A"))
        .track(Some("B"))
        .timestamp(Some(1700000000))
        .album(Some("Al"))
        .track_number(Some(7))
        .prepare()
        .unwrap();
    assert_eq!(prepared.verb, HttpVerb::Post);
    let p = &prepared.params;
    assert_eq!(lookup(p, "timestamp").unwrap(), "1700000000");
    assert_eq!(lookup(p, "trackNumber").unwrap(), "7");
    assert_eq!(lookup(p, "album").unwrap(), "Al");
    assert!(lookup(p, "api_sig").is_some());
    assert!(lookup(p, "mbid").is_none());
}

#[test]
fn token_request_carries_no_credentials() {
    let lastfm = session_client();
    let prepared = lastfm.auth().get_token().prepare().unwrap();
    assert_eq!(prepared.verb, HttpVerb::Get);
    let p = &prepared.params;
    assert_eq!(lookup(p, "method").unwrap(), "auth.getToken");
    assert!(lookup(p, "sk").is_none());
    assert!(lookup(p, "api_sig").is_none());
}

#[test]
fn session_exchange_is_signed_without_session_key() {
    let lastfm = read_only_client();
    let prepared = lastfm.auth().get_session().token("\"tok\"").prepare().unwrap();
    assert_eq!(prepared.verb, HttpVerb::Get);
    let p = &prepared.params;
    assert_eq!(lookup(p, "token").unwrap(), "tok");
    assert_eq!(lookup(p, "method").unwrap(), "auth.getSession");
    let expected = md5_hex("api_keyAPIKEYmethodauth.getSessiontokentokSEC");
    assert_eq!(lookup(p, "api_sig").unwrap(), expected);
    assert_eq!(lookup(p, "format").unwrap(), "json");
    assert!(lookup(p, "sk").is_none());
}

#[test]
fn update_now_playing_is_a_mutation() {
    let lastfm = session_client();
    let prepared = lastfm
        .track()
        .update_now_playing()
        .artist("A")
        .track("B")
        .prepare()
        .unwrap();
    assert_eq!(prepared.verb, HttpVerb::Post);
    assert_eq!(lookup(&prepared.params, "method").unwrap(), "track.updateNowPlaying");
    assert!(lookup(&prepared.params, "sk").is_some());
    assert!(lookup(&prepared.params, "api_sig").is_some());
}

#[test]
fn corrections_are_read_lookups() {
    let lastfm = session_client();
    let artist = lastfm.artist().get_correction().artist("A").prepare().unwrap();
    assert_eq!(artist.verb, HttpVerb::Get);
    let track = lastfm.track().get_correction().artist("A").tags("t").prepare().unwrap();
    assert_eq!(track.verb, HttpVerb::Get);
}

#[test]
fn recent_tracks_defaults_reach_the_wire() {
    let lastfm = read_only_client();
    let prepared = lastfm.user().get_recent_tracks().username("u").prepare().unwrap();
    let p = &prepared.params;
    assert_eq!(lookup(p, "limit").unwrap(), "50");
    assert_eq!(lookup(p, "page").unwrap(), "1");
    assert_eq!(lookup(p, "user").unwrap(), "u");
}
