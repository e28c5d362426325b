use faceit::error::Error;
use faceit::http::{Client, Response};
use faceit::types::Player;

fn response(status: u16, body: &str) -> Response {
    Response { status, body: body.to_string() }
}

fn text_of(value: &serde_json::Value, field: &str) -> Result<String, String> {
    match value.get(field).and_then(|v| v.as_str()) {
        Some(s) => Ok(s.to_string()),
        None => Err(format!("missing field `{}`", field)),
    }
}

fn optional_text_of(value: &serde_json::Value, field: &str) -> Option<String> {
    value.get(field).and_then(|v| v.as_str()).map(|s| s.to_string())
}

fn decode_player(body: &str) -> Result<Player, String> {
    let value: serde_json::Value = serde_json::from_str(body).map_err(|e| e.to_string())?;
    Ok(Player {
        player_id: text_of(&value, "player_id")?,
        nickname: text_of(&value, "nickname")?,
        avatar: optional_text_of(&value, "avatar"),
        country: optional_text_of(&value, "country"),
        faceit_url: optional_text_of(&value, "faceit_url"),
        steam_id_64: optional_text_of(&value, "steam_id_64"),
        steam_nickname: optional_text_of(&value, "steam_nickname"),
        new_steam_id: optional_text_of(&value, "new_steam_id"),
        memberships: None,
        games: None,
        verified: value.get("verified").and_then(|v| v.as_bool()),
        activated_at: None,
        cover_image: optional_text_of(&value, "cover_image"),
        friends_ids: None,
        platforms: None,
        settings: None,
    })
}

fn never(_body: &str) -> Result<u8, String> {
    panic!("the decoder must not run for this response")
}

#[test]
fn player_is_decoded_from_a_successful_response() {
    let client = Client::new();
    let request = client.get_player("p1");
    assert_eq!(request.url, "https://open.faceit.com/data/v4/players/p1");
    let exchange = Ok(response(200, "{\"player_id\":\"p1\",\"nickname\":\"foo\"}"));
    let player = client.handle_response(exchange, decode_player).unwrap();
    assert_eq!(player.player_id, "p1");
    assert_eq!(player.nickname, "foo");
    assert!(player.avatar.is_none());
    assert!(player.country.is_none());
    assert!(player.faceit_url.is_none());
    assert!(player.steam_id_64.is_none());
    assert!(player.steam_nickname.is_none());
    assert!(player.new_steam_id.is_none());
    assert!(player.memberships.is_none());
    assert!(player.games.is_none());
    assert!(player.verified.is_none());
    assert!(player.activated_at.is_none());
    assert!(player.cover_image.is_none());
    assert!(player.friends_ids.is_none());
    assert!(player.platforms.is_none());
    assert!(player.settings.is_none());
}

#[test]
fn not_found_carries_status_and_body() {
    let client = Client::new();
    let result = client.handle_response(Ok(response(404, "not found")), never);
    assert_eq!(result, Err(Error::Api(404, "Not found: not found".to_string())));
    match result {
        Err(Error::Api(status, message)) => {
            assert_eq!(status, 404);
            assert!(message.contains("not found"));
        }
        _ => panic!("expected an API error"),
    }
}

#[test]
fn unauthorized_is_invalid_credential_whatever_the_body() {
    let client = Client::new();
    for body in ["", "nope", "{\"error\":\"bad key\"}", "\u{0}\u{1f600}"] {
        let result = client.handle_response(Ok(response(401, body)), never);
        assert_eq!(result, Err(Error::InvalidApiKey));
    }
}

#[test]
fn server_error_holds_nothing_of_the_body() {
    let client = Client::new();
    for body in ["", "stack trace", "{\"player_id\":\"p1\",\"nickname\":\"foo\"}"] {
        let result = client.handle_response(Ok(response(500, body)), never);
        assert_eq!(result, Err(Error::ServerError));
    }
}

#[test]
fn each_known_status_has_its_prefix() {
    let client = Client::new();
    let cases: [(u16, &str); 5] = [
        (400, "Bad request: B"),
        (403, "Forbidden: B"),
        (404, "Not found: B"),
        (429, "Too many requests: B"),
        (503, "Service temporarily unavailable: B"),
    ];
    for (status, message) in cases {
        let result = client.handle_response(Ok(response(status, "B")), never);
        assert_eq!(result, Err(Error::Api(status, message.to_string())));
    }
}

#[test]
fn any_other_status_is_passed_on_with_the_raw_body() {
    let client = Client::new();
    for status in [0u16, 100, 199, 300, 301, 302, 402, 418, 499, 501, 502, 504, 599, 65535] {
        let result = client.handle_response(Ok(response(status, "raw")), never);
        assert_eq!(result, Err(Error::Api(status, "raw".to_string())));
    }
}

#[test]
fn success_range_is_200_to_299() {
    assert!(!response(199, "").is_success());
    assert!(response(200, "").is_success());
    assert!(response(204, "").is_success());
    assert!(response(299, "").is_success());
    assert!(!response(300, "").is_success());
    assert_eq!(response(200, "x").error(), None);
    assert_eq!(response(299, "x").error(), None);
    assert_eq!(response(199, "x").error(), Some(Error::Api(199, "x".to_string())));
    assert_eq!(response(300, "x").error(), Some(Error::Api(300, "x".to_string())));
}

#[test]
fn body_that_is_not_json_is_a_decode_failure() {
    let client = Client::new();
    let body = "<html>oops</html>";
    let diagnostic = serde_json::from_str::<serde_json::Value>(body).unwrap_err().to_string();
    let result = client.handle_response(Ok(response(200, body)), decode_player);
    match result {
        Err(Error::Api(status, message)) => {
            assert_eq!(status, 200);
            assert_eq!(
                message,
                format!("Failed to parse JSON response: {}. Response body: {}", diagnostic, body)
            );
            assert!(message.contains(&diagnostic));
            assert!(message.contains(body));
        }
        _ => panic!("expected a decode failure"),
    }
}

#[test]
fn missing_mandatory_field_is_a_decode_failure() {
    let client = Client::new();
    let body = "{\"nickname\":\"foo\"}";
    let result = client.handle_response(Ok(response(200, body)), decode_player);
    assert_eq!(
        result.err(),
        Some(Error::Api(
            200,
            "Failed to parse JSON response: missing field `player_id`. Response body: {\"nickname\":\"foo\"}"
                .to_string()
        ))
    );
}

#[test]
fn missing_optional_field_is_absent() {
    let client = Client::new();
    let body = "{\"player_id\":\"p1\",\"nickname\":\"foo\",\"country\":\"NL\"}";
    let player = client.handle_response(Ok(response(201, body)), decode_player).unwrap();
    assert_eq!(player.country, Some("NL".to_string()));
    assert!(player.avatar.is_none());
}

#[test]
fn transport_failure_is_passed_on_with_its_diagnostic() {
    let client = Client::new();
    let result = client.handle_response(Err("connection refused".to_string()), never);
    assert_eq!(result, Err(Error::Http("connection refused".to_string())));
}

#[test]
fn settle_reports_the_status_before_the_decoder() {
    let ok: Result<u8, String> = Ok(7);
    assert_eq!(response(200, "b").settle(ok.clone()), Ok(7));
    assert_eq!(response(404, "b").settle(ok.clone()), Err(Error::Api(404, "Not found: b".to_string())));
    assert_eq!(response(401, "b").settle(ok), Err(Error::InvalidApiKey));
    let failed: Result<u8, String> = Err("bad".to_string());
    assert_eq!(
        response(200, "b").settle(failed.clone()),
        Err(Error::Api(200, "Failed to parse JSON response: bad. Response body: b".to_string()))
    );
    assert_eq!(response(500, "b").settle(failed), Err(Error::ServerError));
}

#[test]
fn decoder_gets_the_body_as_it_was_read() {
    let client = Client::new();
    let result =
        client.handle_response(Ok(response(200, " raw \n body ")), |body: &str| -> Result<String, String> {
            Ok(body.to_string())
        });
    assert_eq!(result, Ok(" raw \n body ".to_string()));
}
