use krtld::config::load_config;
use krtld::config::ConfigError;

#[test]
fn missing_api_key_is_fatal_before_anything_else() {
    let r = load_config(None, Some(String::from("0")));
    assert_eq!(r.unwrap_err(), ConfigError::MissingApiKey);
    let r2 = load_config(None, None);
    assert_eq!(r2.unwrap_err(), ConfigError::MissingApiKey);
}

#[test]
fn missing_index_is_fatal() {
    let r = load_config(Some(String::from("some-key")), None);
    assert_eq!(r.unwrap_err(), ConfigError::MissingIndex);
}

#[test]
fn non_numeric_index_is_fatal_and_names_the_text() {
    let r = load_config(Some(String::from("some-key")), Some(String::from("abc")));
    assert_eq!(r.unwrap_err(), ConfigError::InvalidIndex { text: String::from("abc") });
}

#[test]
fn valid_values_load_with_the_index_trimmed() {
    let r = load_config(Some(String::from("some-key")), Some(String::from(" 17576 \n")));
    let cfg = r.unwrap();
    assert_eq!(cfg.api_key, "some-key");
    assert_eq!(cfg.start_index, 17576);
}
