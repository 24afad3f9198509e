use lastfm::{ParameterBuilder, ParameterSet};

fn lookup(params: &ParameterSet, key: &str) -> Option<String> {
    let n = params.len();
    let mut i = 0;
    while i < n {
        if params.key_at(i).as_str() == key {
            return Some(params.value_at(i).clone());
        }
        i += 1;
    }
    None
}

#[test]
fn add_records_a_pair() {
    let params = ParameterBuilder::new().add("artist", "Radiohead".to_string()).build();
    assert_eq!(params.len(), 1);
    assert!(params.contains_key("artist"));
    assert_eq!(lookup(&params, "artist").unwrap(), "Radiohead");
}

#[test]
fn add_overwrites_an_earlier_value() {
    let params = ParameterBuilder::new()
        .add("artist", "old".to_string())
        .add("artist", "new".to_string())
        .build();
    assert_eq!(params.len(), 1);
    assert_eq!(lookup(&params, "artist").unwrap(), "new");
}

#[test]
fn add_optional_skips_absent_values() {
    let params = ParameterBuilder::new()
        .add_optional("artist", Some("A".to_string()))
        .add_optional("album", None)
        .build();
    assert_eq!(params.len(), 1);
    assert!(params.contains_key("artist"));
    assert!(!params.contains_key("album"));
}

#[test]
fn build_yields_every_recorded_pair() {
    let params = ParameterBuilder::new()
        .add("a", "1".to_string())
        .add("b", "2".to_string())
        .add("c", "3".to_string())
        .build();
    assert_eq!(params.len(), 3);
    assert_eq!(lookup(&params, "a").unwrap(), "1");
    assert_eq!(lookup(&params, "b").unwrap(), "2");
    assert_eq!(lookup(&params, "c").unwrap(), "3");
}
