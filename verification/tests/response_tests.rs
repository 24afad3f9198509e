use lastfm::{classify_reply, APIResponse, AuthGetSession, AuthGetToken, Lastfm, LastfmError};

fn client() -> Lastfm {
    Lastfm::builder()
        .api_key("APIKEY".to_string())
        .api_secret("SEC".to_string())
        .build()
        .unwrap()
}

#[test]
fn error_reply_becomes_the_error_variant() {
    let reply = r#"{"error": 6, "message": "x", "links": []}"#;
    match classify_reply(reply).unwrap() {
        APIResponse::Error(e) => {
            assert_eq!(e.error, 6);
            assert_eq!(e.message, "x");
            assert!(e.links.is_empty());
        },
        APIResponse::Success(_) => panic!("an error reply must not classify as success"),
    }
}

#[test]
fn success_reply_is_returned_verbatim() {
    let reply = r#"{"album": {"name": "OK Computer", "artist": "Radiohead"}}"#;
    match classify_reply(reply).unwrap() {
        APIResponse::Success(doc) => {
            let expected: serde_json::Value = serde_json::from_str(reply).unwrap();
            assert_eq!(doc, expected);
            assert_eq!(
                doc.get("album").unwrap().get("name").unwrap().as_str().unwrap(),
                "OK Computer"
            );
            assert_eq!(
                doc.get("album").unwrap().get("artist").unwrap().as_str().unwrap(),
                "Radiohead"
            );
        },
        APIResponse::Error(_) => panic!("a success reply must not classify as an error"),
    }
}

#[test]
fn malformed_reply_is_a_parse_failure() {
    let result = classify_reply("not json");
    assert!(matches!(result, Err(LastfmError::JsonError(_))));
}

#[test]
fn error_reply_missing_fields_is_a_decode_failure() {
    let result = classify_reply(r#"{"error": 6}"#);
    assert!(matches!(result, Err(LastfmError::Decode(_))));
    let result = classify_reply(r#"{"error": 6, "message": "x"}"#);
    assert!(matches!(result, Err(LastfmError::Decode(_))));
    let result = classify_reply(r#"{"error": "six", "message": "x", "links": []}"#);
    assert!(matches!(result, Err(LastfmError::Decode(_))));
}

#[test]
fn token_reply_decodes_into_the_token() {
    let doc: serde_json::Value = serde_json::from_str(r#"{"token": "tok123"}"#).unwrap();
    let resp = AuthGetToken::decode_token(&doc).unwrap();
    assert_eq!(resp.token, "tok123");
    let bad: serde_json::Value = serde_json::from_str(r#"{"token": 5}"#).unwrap();
    assert!(matches!(
        AuthGetToken::decode_token(&bad),
        Err(LastfmError::Decode(_))
    ));
}

#[test]
fn session_reply_with_error_surfaces_the_api_error() {
    let result =
        AuthGetSession::session_from_reply(r#"{"error": 4, "message": "bad token", "links": []}"#);
    match result {
        Err(LastfmError::ApiError(e)) => {
            assert_eq!(e.error, 4);
            assert_eq!(e.message, "bad token");
        },
        _ => panic!("an error document must surface as an API error"),
    }
    let ok = AuthGetSession::session_from_reply(r#"{"session": {"key": "SK"}}"#).unwrap();
    assert_eq!(
        ok.get("session").unwrap().get("key").unwrap().as_str().unwrap(),
        "SK"
    );
}

#[test]
fn session_key_decodes_out_of_the_reply() {
    let doc: serde_json::Value =
        serde_json::from_str(r#"{"session": {"name": "u", "key": "SK9"}}"#).unwrap();
    assert_eq!(AuthGetSession::decode_session_key(&doc).unwrap(), "SK9");
    let bad: serde_json::Value = serde_json::from_str(r#"{"session": {"name": "u"}}"#).unwrap();
    assert!(matches!(
        AuthGetSession::decode_session_key(&bad),
        Err(LastfmError::Decode(_))
    ));
}

#[test]
fn authorize_url_embeds_key_and_stripped_token() {
    let lastfm = client();
    let auth = lastfm.auth();
    let url = auth.authorize_url("\"tok\"");
    assert_eq!(
        url,
        "https://www.last.fm/api/auth?api_key=APIKEY&token=tok"
    );
}

#[test]
fn numeric_fields_render_in_decimal() {
    let lastfm = Lastfm::builder()
        .api_key("k".to_string())
        .api_secret("s".to_string())
        .build()
        .unwrap();
    let prepared = lastfm
        .chart()
        .get_top_artists()
        .limit(30)
        .page(-2)
        .prepare()
        .unwrap();
    let p = &prepared.params;
    let mut found_limit = None;
    let mut found_page = None;
    let mut i = 0;
    while i < p.len() {
        if p.key_at(i).as_str() == "limit" {
            found_limit = Some(p.value_at(i).clone());
        }
        if p.key_at(i).as_str() == "page" {
            found_page = Some(p.value_at(i).clone());
        }
        i += 1;
    }
    assert_eq!(found_limit.unwrap(), "30");
    assert_eq!(found_page.unwrap(), "-2");
}

#[test]
fn autocorrect_defaults_to_false_on_the_wire() {
    let lastfm = client();
    let prepared = lastfm.album().get_info().mbid("m1").prepare().unwrap();
    let p = &prepared.params;
    let mut autocorrect = None;
    let mut i = 0;
    while i < p.len() {
        if p.key_at(i).as_str() == "autocorrect" {
            autocorrect = Some(p.value_at(i).clone());
        }
        i += 1;
    }
    assert_eq!(autocorrect.unwrap(), "false");
}
