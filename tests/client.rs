use reqwest::header::AUTHORIZATION;
use sanity::helpers::get_json;
use sanity::{construct_headers, create, get_url, SanityError};
use serde_json::Value;

#[test]
fn get_url_follows_template() {
    assert_eq!(
        get_url("abc123", "production"),
        "https://abc123.api.sanity.io/v1/data/query/production"
    );
}

#[test]
fn create_stores_direct_url() {
    let config = create("abc123", "staging", "tok", true);
    assert_eq!(config.url(), "https://abc123.api.sanity.io/v1/data/query/staging");
    assert_eq!(config.project_id(), "abc123");
    assert_eq!(config.data_set(), "staging");
    assert_eq!(config.access_token(), "tok");
    assert!(config.query.query.is_none());
}

#[test]
fn production_uses_cdn_host() {
    let config = create("proj1", "dev", "tok", true);
    assert_eq!(
        config.query.base_url(),
        "https://proj1.apicdn.sanity.io/v1/data/query/dev/"
    );
}

#[test]
fn non_production_uses_api_host() {
    let config = create("proj1", "dev", "tok", false);
    assert_eq!(
        config.query.base_url(),
        "https://proj1.api.sanity.io/v1/data/query/dev/"
    );
}

#[test]
fn build_url_appends_query_verbatim() {
    let config = create("proj1", "dev", "tok", false);
    let url = config.build_url(Some("*[_type=='x']")).unwrap();
    assert_eq!(
        url,
        "https://proj1.api.sanity.io/v1/data/query/dev/?query=*[_type=='x']"
    );
    let prefix = "https://proj1.api.sanity.io/v1/data/query/dev/?query=";
    assert_eq!(&url[prefix.len()..], "*[_type=='x']");
}

#[test]
fn build_url_keeps_special_characters() {
    let config = create("p", "d", "tok", true);
    let url = config.build_url(Some("*[name == \"a b&c\"]")).unwrap();
    assert_eq!(
        url,
        "https://p.apicdn.sanity.io/v1/data/query/d/?query=*[name == \"a b&c\"]"
    );
}

#[test]
fn build_url_falls_back_to_stored_query() {
    let mut config = create("proj1", "dev", "tok", true);
    config.query.query = Some(String::from("*[_type=='post']"));
    assert_eq!(
        config.build_url(None).unwrap(),
        "https://proj1.apicdn.sanity.io/v1/data/query/dev/?query=*[_type=='post']"
    );
    assert_eq!(
        config.build_url(Some("*")).unwrap(),
        "https://proj1.apicdn.sanity.io/v1/data/query/dev/?query=*"
    );
}

#[test]
fn build_url_without_any_query_fails() {
    let config = create("proj1", "dev", "tok", true);
    assert_eq!(config.build_url(None), Err(SanityError::MissingQuery));
    assert_eq!(config.query.build_url(None), Err(SanityError::MissingQuery));
}

#[test]
fn build_url_with_empty_query() {
    let config = create("proj1", "dev", "tok", false);
    assert_eq!(
        config.build_url(Some("")).unwrap(),
        "https://proj1.api.sanity.io/v1/data/query/dev/?query="
    );
}

#[test]
fn get_json_reads_result_array() {
    let value = get_json("{\"result\":[1,2,3]}").unwrap();
    let expected = Value::from(vec![1, 2, 3]);
    assert_eq!(value.get("result"), Some(&expected));
}

#[test]
fn get_json_rejects_non_json() {
    assert!(matches!(get_json("not json"), Err(SanityError::Decode)));
}

#[test]
fn get_json_rejects_empty_body() {
    assert!(matches!(get_json(""), Err(SanityError::Decode)));
}

#[test]
fn headers_carry_token_unchanged() {
    let headers = construct_headers("secret-token").unwrap();
    assert_eq!(headers.len(), 1);
    assert_eq!(
        headers.get(AUTHORIZATION).unwrap().as_bytes(),
        "secret-token".as_bytes()
    );
}

#[test]
fn headers_accept_tab_and_non_ascii() {
    let headers = construct_headers("a\tb é").unwrap();
    assert_eq!(headers.get("authorization").unwrap().as_bytes(), "a\tb é".as_bytes());
}

#[test]
fn newline_in_token_is_a_config_error() {
    let config = create("proj1", "dev", "abc\ndef", true);
    assert!(matches!(
        construct_headers(config.access_token()),
        Err(SanityError::InvalidHeader)
    ));
}

#[test]
fn delete_char_in_token_is_a_config_error() {
    assert!(matches!(
        construct_headers("abc\u{7f}"),
        Err(SanityError::InvalidHeader)
    ));
}
