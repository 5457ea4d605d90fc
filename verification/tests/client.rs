use ha_temperature::datasource::error::{ErrorKind, HaError};
use ha_temperature::datasource::ha::{
    decoded, received, status_is_success, HomeAssistantClient, Method, Response, State,
    REQUEST_TIMEOUT_SECS,
};
use ha_temperature::text::{decimal_text, trim_end_slashes};

fn client(host: &str) -> HomeAssistantClient {
    HomeAssistantClient::new(host.to_string(), "fake_token".to_string()).unwrap()
}

#[test]
fn test_get_state() {
    let server_url = "http://127.0.0.1:1234";
    let client =
        HomeAssistantClient::new(server_url.to_string(), "fake_token".to_string()).unwrap();

    let request = client.get_state("sensor.temperature");
    assert_eq!(request.method, Method::Get);
    assert_eq!(request.url, format!("{}/api/states/sensor.temperature", server_url));
    assert_eq!(request.authorization, "Bearer fake_token");
    assert_eq!(request.body, None);

    let answer = Response {
        status: 200,
        body: "{
                \"state\": \"23.5\",
                \"attributes\": {\"unit_of_measurement\": \"\u{c2}\u{b0}C\"},
                \"last_updated\": \"2024-01-01T00:00:00Z\",
                \"last_changed\": \"2024-01-01T00:00:00Z\"
            }"
        .to_string(),
    };
    let body = answer.into_body().unwrap();
    let v: serde_json::Value = serde_json::from_str(&body).unwrap();
    let state = State {
        state: v.get("state").and_then(|s| s.as_str()).map(|s| s.to_string()),
        attributes: v.get("attributes").cloned(),
        last_updated: v.get("last_updated").and_then(|s| s.as_str()).unwrap().to_string(),
        last_changed: v.get("last_changed").and_then(|s| s.as_str()).unwrap().to_string(),
    };
    assert_eq!(state.state, Some("23.5".to_string()));
}

#[test]
fn root_is_the_host_without_trailing_slashes_and_api() {
    assert_eq!(client("http://hub:8123").base_url(), "http://hub:8123/api");
    assert_eq!(client("http://hub:8123/").base_url(), "http://hub:8123/api");
    assert_eq!(client("http://hub:8123///").base_url(), "http://hub:8123/api");
    assert_eq!(client("http://hub/base/").base_url(), "http://hub/base/api");
    assert_eq!(client("").base_url(), "/api");
    assert_eq!(client("///").base_url(), "/api");
}

#[test]
fn every_request_carries_the_bearer_token_and_the_timeout() {
    let client = HomeAssistantClient::new("http://hub".to_string(), "s3cr3t".to_string()).unwrap();
    assert_eq!(client.authorization(), "Bearer s3cr3t");
    assert_eq!(REQUEST_TIMEOUT_SECS, 10);
    let requests = [
        client.get_state("sensor.a"),
        client.get_states(),
        client.call_service("light", "turn_on", None).unwrap(),
    ];
    for request in requests {
        assert_eq!(request.authorization, "Bearer s3cr3t");
        assert_eq!(request.timeout_secs, 10);
    }
}

#[test]
fn token_is_accepted_by_its_bytes() {
    for token in ["", "abc", "with space", "tab\there", "t\u{f6}k\u{e9}n", "\u{4e2d}\u{6587}", "~"] {
        let made = HomeAssistantClient::new("http://hub".to_string(), token.to_string());
        assert_eq!(made.unwrap().authorization(), format!("Bearer {}", token));
    }
    for token in ["line\nbreak", "cr\r", "nul\0", "del\u{7f}", "\u{1b}[0m", "a\u{1f}"] {
        let err = HomeAssistantClient::new("http://hub".to_string(), token.to_string())
            .unwrap_err();
        assert_eq!(
            err,
            HaError::Construction { detail: "token cannot be sent in a header".to_string() }
        );
        assert_eq!(err.kind(), ErrorKind::ClientConstruction);
        assert_eq!(
            err.message(),
            "invalid client configuration: token cannot be sent in a header"
        );
    }
}

#[test]
fn get_states_asks_for_all_states() {
    let request = client("http://hub/").get_states();
    assert_eq!(request.method, Method::Get);
    assert_eq!(request.url, "http://hub/api/states");
    assert_eq!(request.body, None);
}

#[test]
fn get_state_does_not_rewrite_the_entity() {
    let request = client("http://hub").get_state("sensor.a b/c");
    assert_eq!(request.url, "http://hub/api/states/sensor.a b/c");
}

#[test]
fn call_service_without_data_sends_the_empty_object() {
    let request = client("http://hub/").call_service("light", "turn_on", None).unwrap();
    assert_eq!(request.method, Method::Post);
    assert_eq!(request.url, "http://hub/api/services/light/turn_on");
    assert_eq!(request.body, Some("{}".to_string()));
}

#[test]
fn call_service_sends_the_data_encoded() {
    let mut members = serde_json::Map::new();
    members.insert(
        "entity_id".to_string(),
        serde_json::Value::String("light.kitchen".to_string()),
    );
    members.insert("brightness".to_string(), serde_json::Value::from(128));
    let data = serde_json::Value::Object(members);
    let expected = serde_json::to_string(&data).unwrap();
    let request = client("http://hub").call_service("light", "turn_on", Some(data)).unwrap();
    assert_eq!(request.method, Method::Post);
    assert_eq!(request.url, "http://hub/api/services/light/turn_on");
    assert_eq!(request.body, Some(expected));
    let body = request.body.unwrap();
    assert!(body == "{\"brightness\":128,\"entity_id\":\"light.kitchen\"}"
        || body == "{\"entity_id\":\"light.kitchen\",\"brightness\":128}");
}

#[test]
fn service_request_sends_the_body_given() {
    let request = client("http://hub").service_request("climate", "set", "[1,2]".to_string());
    assert_eq!(request.method, Method::Post);
    assert_eq!(request.url, "http://hub/api/services/climate/set");
    assert_eq!(request.body, Some("[1,2]".to_string()));
}

#[test]
fn success_is_any_status_from_200_to_299() {
    for status in [200u16, 201, 204, 250, 299] {
        assert!(status_is_success(status));
        let answer = Response { status, body: "ok".to_string() };
        assert_eq!(answer.into_body(), Ok("ok".to_string()));
    }
    for status in [0u16, 100, 199, 300, 301, 400, 404, 500, 503, 65535] {
        assert!(!status_is_success(status));
        let answer = Response { status, body: "no".to_string() };
        assert_eq!(answer.into_body(), Err(HaError::Status { status, body: "no".to_string() }));
    }
}

#[test]
fn failing_status_carries_status_and_body() {
    let err = Response { status: 500, body: "internal error".to_string() }.into_body().unwrap_err();
    assert_eq!(err, HaError::Status { status: 500, body: "internal error".to_string() });
    assert_eq!(err.kind(), ErrorKind::HttpStatus);
    assert_eq!(err.message(), "hub answered with status 500: internal error");
}

#[test]
fn transport_failure_says_what_failed() {
    let err = HaError::Transport { detail: "timed out".to_string() };
    assert_eq!(err.kind(), ErrorKind::Transport);
    assert_eq!(err.message(), "transport failure: timed out");
}

#[test]
fn decimal_text_writes_base_ten() {
    assert_eq!(decimal_text(0), "0");
    assert_eq!(decimal_text(7), "7");
    assert_eq!(decimal_text(10), "10");
    assert_eq!(decimal_text(404), "404");
    assert_eq!(decimal_text(1000), "1000");
    assert_eq!(decimal_text(65535), "65535");
    for n in [9u16, 99, 100, 101, 999, 12345, 60000] {
        assert_eq!(decimal_text(n), n.to_string());
    }
}

#[test]
fn trim_end_slashes_removes_only_the_end() {
    assert_eq!(trim_end_slashes(""), "");
    assert_eq!(trim_end_slashes("/"), "");
    assert_eq!(trim_end_slashes("a"), "a");
    assert_eq!(trim_end_slashes("a/"), "a");
    assert_eq!(trim_end_slashes("a//"), "a");
    assert_eq!(trim_end_slashes("/a/b/"), "/a/b");
    assert_eq!(trim_end_slashes("h\u{e9}/\u{e9}//"), "h\u{e9}/\u{e9}");
    for s in ["http://x/", "//", "a/b", "x///y///"] {
        assert_eq!(trim_end_slashes(s), s.trim_end_matches('/'));
    }
}

#[test]
fn received_tells_the_three_outcomes_apart() {
    let ok = received(Ok(Response { status: 200, body: "{}".to_string() }));
    assert_eq!(ok, Ok("{}".to_string()));
    let refused = received(Ok(Response { status: 401, body: "unauthorized".to_string() }));
    assert_eq!(refused, Err(HaError::Status { status: 401, body: "unauthorized".to_string() }));
    let lost = received(Err("connection reset".to_string()));
    assert_eq!(lost, Err(HaError::Transport { detail: "connection reset".to_string() }));
}

#[test]
fn body_that_cannot_be_decoded_is_a_transport_failure() {
    let detail = serde_json::from_str::<serde_json::Value>("not json").unwrap_err().to_string();
    let err = decoded::<serde_json::Value>(Err(detail.clone())).unwrap_err();
    assert_eq!(err, HaError::Transport { detail });
    assert_eq!(err.kind(), ErrorKind::Transport);
    assert_eq!(decoded(Ok(7u8)), Ok(7u8));
}
