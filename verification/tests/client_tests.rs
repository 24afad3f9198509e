use lastfm::{Lastfm, ParameterBuilder};
use reqwest::Client;

fn get_lastfm_instance() -> Lastfm {
    let client = Client::new();
    Lastfm::builder()
        .api_key("test_api_key".to_string())
        .api_secret("test_api_secret".to_string())
        .session_key("test_session_key".to_string())
        .client(client)
        .build()
        .unwrap()
}

#[test]
fn test_get_api_key() {
    let lastfm = get_lastfm_instance();
    assert_eq!(lastfm.get_api_key(), "test_api_key");
}

#[test]
fn test_get_api_secret() {
    let lastfm = get_lastfm_instance();
    assert_eq!(lastfm.get_api_secret(), "test_api_secret");
}

#[test]
fn test_get_base_url() {
    let lastfm = get_lastfm_instance();
    assert_eq!(lastfm.get_base_url(), "http://ws.audioscrobbler.com/2.0/");
}

#[test]
fn test_get_sk() {
    let lastfm = get_lastfm_instance();
    assert_eq!(lastfm.get_sk(), "test_session_key");
}

#[test]
fn test_set_sk() {
    let mut lastfm = get_lastfm_instance();
    lastfm.set_sk("new_session_key".to_string());
    assert_eq!(lastfm.get_sk(), "new_session_key");
}

#[test]
fn test_sign_api() {
    let lastfm = get_lastfm_instance();
    let params = ParameterBuilder::new()
        .add("method", "test_method".to_string())
        .add("api_key", lastfm.get_api_key())
        .build();
    let signature = lastfm.sign_api(&params);
    assert!(!signature.is_empty());
}

#[test]
fn test_builder_without_session_key() {
    let lastfm = Lastfm::builder()
        .api_key("k".to_string())
        .api_secret("s".to_string())
        .build()
        .unwrap();
    assert_eq!(lastfm.get_api_key(), "k");
    assert_eq!(lastfm.get_api_secret(), "s");
    assert!(lastfm.sk.is_none());
}
