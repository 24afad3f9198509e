use lastfm::Lastfm;

fn session_client() -> Lastfm {
    Lastfm::builder()
        .api_key("APIKEY".to_string())
        .api_secret("SEC".to_string())
        .session_key("SK1".to_string())
        .build()
        .unwrap()
}

#[test]
fn eleven_tags_fail_validation() {
    let lastfm = session_client();
    let result = lastfm
        .album()
        .add_tags()
        .artist("A")
        .album("B")
        .tags("t1,t2,t3,t4,t5,t6,t7,t8,t9,t10,t11")
        .prepare();
    match result {
        Err(lastfm::LastfmError::Generic(m)) => assert_eq!(m, "Cannot exceed 10 tags."),
        _ => panic!("eleven tags must fail validation"),
    }
}

#[test]
fn ten_tags_pass_validation() {
    let lastfm = session_client();
    let result = lastfm
        .album()
        .add_tags()
        .artist("A")
        .album("B")
        .tags("t1,t2,t3,t4,t5,t6,t7,t8,t9,t10")
        .prepare();
    assert!(result.is_ok());
}

#[test]
fn removing_two_tags_fails() {
    let lastfm = session_client();
    let result = lastfm
        .album()
        .remove_tag()
        .artist("A")
        .album("B")
        .tag("t1,t2")
        .prepare();
    match result {
        Err(lastfm::LastfmError::Generic(m)) => {
            assert_eq!(m, "Only 1 tag is allowed to remove at a time")
        },
        _ => panic!("removing two tags must fail validation"),
    }
}

#[test]
fn removing_one_tag_passes() {
    let lastfm = session_client();
    let result = lastfm
        .album()
        .remove_tag()
        .artist("A")
        .album("B")
        .tag("t1")
        .prepare();
    assert!(result.is_ok());
}

#[test]
fn info_lookup_needs_identifier_or_name_pair() {
    let lastfm = session_client();
    match lastfm.album().get_info().prepare() {
        Err(lastfm::LastfmError::Generic(m)) => {
            assert_eq!(m, "Either 'mbid' or both 'artist' and 'album' must be provided.")
        },
        _ => panic!("a bare info lookup must fail validation"),
    }
    assert!(lastfm.album().get_info().artist("A").prepare().is_err());
    assert!(lastfm.album().get_info().mbid("mbid-1").prepare().is_ok());
    assert!(lastfm.album().get_info().artist("A").album("B").prepare().is_ok());
}

#[test]
fn artist_lookup_needs_identifier_or_name() {
    let lastfm = session_client();
    assert!(lastfm.artist().get_info().prepare().is_err());
    assert!(lastfm.artist().get_info().mbid("mbid-1").prepare().is_ok());
    assert!(lastfm.artist().get_info().artist("A").prepare().is_ok());
}

#[test]
fn search_needs_a_nonempty_name() {
    let lastfm = session_client();
    assert!(lastfm.album().search().prepare().is_err());
    assert!(lastfm.album().search().album("").prepare().is_err());
    assert!(lastfm.album().search().album("OK Computer").prepare().is_ok());
    assert!(lastfm.artist().search().prepare().is_err());
    assert!(lastfm.artist().search().artist("").prepare().is_err());
    assert!(lastfm.artist().search().artist("Radiohead").prepare().is_ok());
}

#[test]
fn artist_tag_removal_takes_exactly_one_tag() {
    let lastfm = session_client();
    assert!(lastfm.artist().remove_tag().artist("A").tag("t1,t2").prepare().is_err());
    assert!(lastfm.artist().remove_tag().artist("A").tag("t1").prepare().is_ok());
}

#[test]
fn scrobble_requires_artist_track_and_timestamp() {
    let lastfm = session_client();
    match lastfm.track().scrobble().prepare() {
        Err(lastfm::LastfmError::Generic(m)) => {
            assert_eq!(m, "'artist', 'track', and 'timestamp' are required.")
        },
        _ => panic!("a bare scrobble must fail validation"),
    }
    assert!(lastfm.track().scrobble().artist(Some("A")).track(Some("B")).prepare().is_err());
    assert!(lastfm
        .track()
        .scrobble()
        .artist(Some("A"))
        .track(Some("B"))
        .timestamp(Some(1))
        .prepare()
        .is_ok());
}

#[test]
fn love_requires_both_names() {
    let lastfm = session_client();
    assert!(lastfm.track().love().prepare().is_err());
    assert!(lastfm.track().love().artist("A").prepare().is_err());
    assert!(lastfm.track().love().artist("A").track("B").prepare().is_ok());
}

#[test]
fn user_charts_require_a_username() {
    let lastfm = session_client();
    assert!(lastfm.user().get_weekly_chart_list().prepare().is_err());
    assert!(lastfm.user().get_weekly_chart_list().user("u").prepare().is_ok());
    assert!(lastfm.user().get_recent_tracks().prepare().is_err());
    assert!(lastfm.user().get_recent_tracks().username("u").prepare().is_ok());
}
