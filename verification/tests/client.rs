use faceit::http::{Client, ClientBuilder, Request};
use faceit::{HttpClient, HttpClientBuilder};
use std::time::Duration;

fn pair(name: &str, value: &str) -> (String, String) {
    (name.to_string(), value.to_string())
}

#[test]
fn test_client_builder() {
    let builder = ClientBuilder::new();
    let client = builder
        .base_url("https://test.example.com")
        .api_key("test-key")
        .timeout(Duration::from_secs(60))
        .build();
    assert_eq!(client.base_url(), "https://test.example.com");
    assert_eq!(client.api_key(), Some("test-key"));
}

#[test]
fn test_client_builder_with_options() {
    let client = ClientBuilder::new()
        .base_url("https://test.example.com")
        .api_key("test-key")
        .timeout(Duration::from_secs(60))
        .build();

    assert_eq!(client.base_url(), "https://test.example.com");
    assert_eq!(client.api_key(), Some("test-key"));
}

#[test]
fn test_client_default_base_url() {
    let client = Client::new();
    assert_eq!(client.base_url(), "https://open.faceit.com");
}

#[test]
fn test_player_id_string() {
    let player_id = "5ea07280-2399-4c7e-88ab-f2f7db0c449f";
    assert!(!player_id.is_empty());
    assert_eq!(player_id.len(), 36);
}

#[test]
fn builder_keeps_the_timeout_it_was_given() {
    let client = ClientBuilder::new().timeout(Duration::from_secs(60)).build();
    assert_eq!(client.timeout(), Duration::from_secs(60));
}

#[test]
fn default_timeout_is_thirty_seconds() {
    assert_eq!(Client::new().timeout(), Duration::from_secs(30));
    assert_eq!(Client::builder().build().timeout(), Duration::from_secs(30));
    assert_eq!(ClientBuilder::default().build().timeout(), Duration::from_secs(30));
    assert_eq!(Client::default().timeout(), Duration::from_secs(30));
}

#[test]
fn default_client_has_no_credential() {
    let client = Client::new();
    assert_eq!(client.api_key(), None);
    assert_eq!(Client::default().base_url(), "https://open.faceit.com");
}

#[test]
fn later_setting_replaces_earlier() {
    let client = ClientBuilder::new()
        .base_url("https://a.example.com")
        .base_url("https://b.example.com")
        .api_key("one")
        .api_key("two")
        .build();
    assert_eq!(client.base_url(), "https://b.example.com");
    assert_eq!(client.api_key(), Some("two"));
}

#[test]
fn reexported_names_are_the_same_types() {
    let client: HttpClient = HttpClientBuilder::new().api_key("k").build();
    assert_eq!(client.api_key(), Some("k"));
}

#[test]
fn credential_is_sent_as_bearer_header() {
    let client = ClientBuilder::new().api_key("secret").build();
    let request = client.get_player("p1");
    assert_eq!(request.headers, vec![pair("Authorization", "Bearer secret")]);
}

#[test]
fn no_credential_no_header() {
    let client = Client::new();
    let request = client.get_player("p1");
    assert!(request.headers.is_empty());
}

#[test]
fn add_api_key_header_leaves_request_unchanged_without_credential() {
    let client = Client::new();
    let request = Request {
        url: "https://x.example.com/y".to_string(),
        query: vec![pair("a", "b")],
        headers: vec![pair("Accept", "application/json")],
    };
    let after = client.add_api_key_header(request.clone());
    assert_eq!(after, request);
}

#[test]
fn add_api_key_header_appends_after_existing_headers() {
    let client = ClientBuilder::new().api_key("k").build();
    let request = Request {
        url: "https://x.example.com/y".to_string(),
        query: vec![pair("a", "b")],
        headers: vec![pair("Accept", "application/json")],
    };
    let after = client.add_api_key_header(request);
    assert_eq!(after.url, "https://x.example.com/y");
    assert_eq!(after.query, vec![pair("a", "b")]);
    assert_eq!(
        after.headers,
        vec![pair("Accept", "application/json"), pair("Authorization", "Bearer k")]
    );
}
