use lastfm::{Lastfm, ParameterBuilder, ParameterSet};

fn client_with(secret: &str) -> Lastfm {
    Lastfm::builder()
        .api_key("APIKEY".to_string())
        .api_secret(secret.to_string())
        .build()
        .unwrap()
}

fn md5_hex(input: &str) -> String {
    format!("{:x}", md5::compute(input.as_bytes()))
}

#[test]
fn signature_matches_reference_digest() {
    let lastfm = client_with("SEC");
    let params = ParameterBuilder::new()
        .add("b", "2".to_string())
        .add("a", "1".to_string())
        .build();
    // keys sorted: a, b; concatenation "a1b2" + secret
    assert_eq!(lastfm.sign_api(&params), md5_hex("a1b2SEC"));
}

#[test]
fn signature_is_deterministic() {
    let lastfm = client_with("SEC");
    let params = ParameterBuilder::new()
        .add("artist", "Radiohead".to_string())
        .add("method", "track.love".to_string())
        .build();
    let first = lastfm.sign_api(&params);
    let second = lastfm.sign_api(&params);
    assert_eq!(first, second);
}

#[test]
fn signature_ignores_insertion_order() {
    let lastfm = client_with("SEC");
    let one: ParameterSet = ParameterBuilder::new()
        .add("artist", "A".to_string())
        .add("track", "B".to_string())
        .add("method", "track.love".to_string())
        .build();
    let other: ParameterSet = ParameterBuilder::new()
        .add("method", "track.love".to_string())
        .add("track", "B".to_string())
        .add("artist", "A".to_string())
        .build();
    assert_eq!(lastfm.sign_api(&one), lastfm.sign_api(&other));
}

#[test]
fn signature_excludes_api_sig_and_format() {
    let lastfm = client_with("SEC");
    let bare = ParameterBuilder::new()
        .add("artist", "A".to_string())
        .add("method", "track.love".to_string())
        .build();
    let with_extras = ParameterBuilder::new()
        .add("artist", "A".to_string())
        .add("method", "track.love".to_string())
        .add("api_sig", "bogus".to_string())
        .add("format", "json".to_string())
        .build();
    assert_eq!(lastfm.sign_api(&bare), lastfm.sign_api(&with_extras));
}

#[test]
fn signature_overwrite_uses_last_value() {
    let lastfm = client_with("SEC");
    let params = ParameterBuilder::new()
        .add("a", "old".to_string())
        .add("a", "new".to_string())
        .build();
    assert_eq!(lastfm.sign_api(&params), md5_hex("anewSEC"));
}

#[test]
fn signature_of_empty_set_is_digest_of_secret() {
    let lastfm = client_with("SEC");
    let params = ParameterBuilder::new().build();
    assert_eq!(lastfm.sign_api(&params), md5_hex("SEC"));
}
