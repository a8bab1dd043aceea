use aihorde::client::{DEFAULT_API_KEY, DEFAULT_BASE_URL, DEFAULT_CLIENT_AGENT};
use aihorde::text::decimal;
use aihorde::{AihordeClient, HttpMethod, ModelState, ModelType};

fn pairs(v: &[(String, String)]) -> Vec<(&str, &str)> {
    v.iter().map(|(a, b)| (a.as_str(), b.as_str())).collect()
}

#[test]
fn new_without_overrides_takes_defaults() {
    let c = AihordeClient::new(None, None, None);
    assert_eq!(c.api_key(), "0000000000");
    assert_eq!(c.base_url(), "https://aihorde.net/api/v2");
    assert_eq!(
        c.client_agent(),
        "aihorde-rs:0.1.0:https://github.com/lapismyt/aihorde-rs"
    );
    let d = AihordeClient::default();
    assert_eq!(d.api_key(), DEFAULT_API_KEY);
    assert_eq!(d.base_url(), DEFAULT_BASE_URL);
    assert_eq!(d.client_agent(), DEFAULT_CLIENT_AGENT);
}

#[test]
fn invalid_base_url_falls_back_to_default() {
    for bad in ["not a url", "", "/api/v2", "aihorde.net/api/v2", "http://[::1"] {
        let c = AihordeClient::new(None, Some(bad.to_string()), None);
        assert_eq!(c.base_url(), "https://aihorde.net/api/v2");
    }
}

#[test]
fn valid_base_url_is_kept_in_parsed_form() {
    let c = AihordeClient::new(
        Some("key".to_string()),
        Some("HTTPS://Example.COM/api".to_string()),
        Some("me:1:here".to_string()),
    );
    assert_eq!(c.base_url(), "https://example.com/api");
    assert_eq!(c.api_key(), "key");
    assert_eq!(c.client_agent(), "me:1:here");
    let c = AihordeClient::new(None, Some("http://localhost:8080".to_string()), None);
    assert_eq!(c.base_url(), "http://localhost:8080/");
}

#[test]
fn every_request_carries_both_headers() {
    let c = AihordeClient::new(Some("abc".to_string()), None, Some("agent:2:x".to_string()));
    let r = c.find_user_request();
    assert_eq!(r.method, HttpMethod::Get);
    assert_eq!(r.url, "https://aihorde.net/api/v2/find_user");
    assert!(r.query.is_empty());
    assert_eq!(pairs(&r.headers), vec![("apikey", "abc"), ("Client-Agent", "agent:2:x")]);
}

#[test]
fn user_requests() {
    let c = AihordeClient::default();
    let r = c.get_user_request("0000000000");
    assert_eq!(r.method, HttpMethod::Get);
    assert_eq!(r.url, "https://aihorde.net/api/v2/users/0000000000");
    let r = c.get_users_request(0, None);
    assert_eq!(r.url, "https://aihorde.net/api/v2/users?page=0&sort=kudos");
    let r = c.get_users_request(12, Some("worker_count".to_string()));
    assert_eq!(r.url, "https://aihorde.net/api/v2/users?page=12&sort=worker_count");
    let r = c.get_users_request(u32::MAX, None);
    assert_eq!(r.url, "https://aihorde.net/api/v2/users?page=4294967295&sort=kudos");
}

#[test]
fn generation_requests() {
    let c = AihordeClient::default();
    let r = c.generate_async_request();
    assert_eq!(r.method, HttpMethod::Post);
    assert_eq!(r.url, "https://aihorde.net/api/v2/generate/async");
    let r = c.generation_check_request("abc-123");
    assert_eq!(r.method, HttpMethod::Get);
    assert_eq!(r.url, "https://aihorde.net/api/v2/generate/check/abc-123");
    let r = c.generation_status_request("abc-123");
    assert_eq!(r.method, HttpMethod::Get);
    assert_eq!(r.url, "https://aihorde.net/api/v2/generate/status/abc-123");
    assert_eq!(pairs(&r.headers)[0], ("apikey", "0000000000"));
}

#[test]
fn active_models_query_has_one_parameter_per_filter() {
    let c = AihordeClient::default();
    let r = c.get_active_models_request(Some(ModelType::Image), Some(10), None, Some(ModelState::All));
    assert_eq!(r.method, HttpMethod::Get);
    assert_eq!(r.url, "https://aihorde.net/api/v2/status/models");
    assert_eq!(
        pairs(&r.query),
        vec![("model_type", "image"), ("min_count", "10"), ("state", "all")]
    );
    let r = c.get_active_models_request(None, None, None, None);
    assert!(r.query.is_empty());
    let r = c.get_active_models_request(Some(ModelType::Text), Some(0), Some(u64::MAX), Some(ModelState::Custom));
    assert_eq!(
        pairs(&r.query),
        vec![
            ("model_type", "text"),
            ("min_count", "0"),
            ("max_count", "18446744073709551615"),
            ("state", "custom")
        ]
    );
}

#[test]
fn decimal_notation() {
    assert_eq!(decimal(0), "0");
    assert_eq!(decimal(7), "7");
    assert_eq!(decimal(10), "10");
    assert_eq!(decimal(1234567890), "1234567890");
    assert_eq!(decimal(u64::MAX), "18446744073709551615");
}
