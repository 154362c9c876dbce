use philipshue::bridge::{identify_lights, BridgeBuilder, Discovery, Method};
use philipshue::errors::{HueError, ProtocolIssue};
use philipshue::hue::{decode_envelope, decode_replies, CommandLight, Error, HueResponse, Light, LightState, User};
use philipshue::text::parse_light_id;

fn light(name: &str) -> Light {
    Light {
        name: name.to_string(),
        modelid: "LCT001".to_string(),
        swversion: "66009461".to_string(),
        uniqueid: format!("00:17:88:01:00:{}", name),
        state: LightState { on: true, bri: 144, hue: 13088, sat: 212, ct: Some(467) },
    }
}

fn user(name: &str) -> HueResponse<User> {
    HueResponse { success: Some(User { username: name.to_string() }), error: None }
}

fn failure(code: u16) -> HueResponse<User> {
    HueResponse {
        success: None,
        error: Some(Error { address: "".to_string(), description: "failed".to_string(), code }),
    }
}

#[test]
fn listing_is_sorted_by_numeric_id() {
    let listing = vec![("2".to_string(), light("L2")), ("10".to_string(), light("L1"))];
    let lights = identify_lights(listing).unwrap();
    assert_eq!(lights.len(), 2);
    assert_eq!(lights[0].id, 2);
    assert_eq!(lights[0].light.name, "L2");
    assert_eq!(lights[1].id, 10);
    assert_eq!(lights[1].light.name, "L1");

    let listing = vec![("10".to_string(), light("L1")), ("2".to_string(), light("L2")), ("7".to_string(), light("L7"))];
    let ids: Vec<usize> = identify_lights(listing).unwrap().iter().map(|l| l.id).collect();
    assert_eq!(ids, vec![2, 7, 10]);
}

#[test]
fn listing_with_non_numeric_key_fails() {
    let listing = vec![("1".to_string(), light("a")), ("abc".to_string(), light("b"))];
    assert!(matches!(identify_lights(listing), Err(HueError::Protocol(ProtocolIssue::InvalidLightId))));
}

#[test]
fn empty_listing_is_empty() {
    assert!(identify_lights(Vec::new()).unwrap().is_empty());
}

#[test]
fn light_ids_are_decimal() {
    assert_eq!(parse_light_id("0"), Some(0));
    assert_eq!(parse_light_id("42"), Some(42));
    assert_eq!(parse_light_id("007"), Some(7));
    assert_eq!(parse_light_id(""), None);
    assert_eq!(parse_light_id("-1"), None);
    assert_eq!(parse_light_id("1a"), None);
    assert_eq!(parse_light_id(" 1"), None);
    assert_eq!(parse_light_id("18446744073709551615"), Some(usize::MAX));
    assert_eq!(parse_light_id("18446744073709551616"), None);
    assert_eq!(parse_light_id("99999999999999999999999"), None);
}

#[test]
fn registration_retries_link_button_then_succeeds() {
    let mut attempts = BridgeBuilder::from_ip("192.168.1.2".to_string()).register_user("my app");
    assert!(attempts.request().is_some());
    match attempts.next_attempt(Ok(vec![failure(101)])) {
        Some(Err(HueError::Bridge(e))) => assert_eq!(e.code, 101),
        other => panic!("unexpected {:?}", other),
    }
    assert!(attempts.request().is_some());
    match attempts.next_attempt(Ok(vec![user("abc")])) {
        Some(Ok(bridge)) => {
            assert_eq!(bridge.username, "abc");
            assert_eq!(bridge.ip, "192.168.1.2");
        }
        other => panic!("unexpected {:?}", other),
    }
    assert!(attempts.request().is_none());
    assert!(attempts.next_attempt(Ok(vec![user("def")])).is_none());
}

#[test]
fn registration_stops_on_other_bridge_error() {
    let mut attempts = BridgeBuilder::from_ip("10.0.0.1".to_string()).register_user("app");
    match attempts.next_attempt(Ok(vec![failure(1)])) {
        Some(Err(HueError::Bridge(e))) => assert_eq!(e.code, 1),
        other => panic!("unexpected {:?}", other),
    }
    assert!(attempts.request().is_none());
    assert!(attempts.next_attempt(Ok(vec![failure(101)])).is_none());
}

#[test]
fn registration_stops_on_transport_error() {
    let mut attempts = BridgeBuilder::from_ip("10.0.0.1".to_string()).register_user("app");
    match attempts.next_attempt(Err(HueError::Network("refused".to_string()))) {
        Some(Err(HueError::Network(m))) => assert_eq!(m, "refused"),
        other => panic!("unexpected {:?}", other),
    }
    assert!(attempts.next_attempt(Ok(vec![user("x")])).is_none());
}

#[test]
fn registration_request_shape() {
    let attempts = BridgeBuilder::from_ip("10.0.0.1".to_string()).register_user("say \"hi\"\\\n");
    let q = attempts.request().unwrap();
    assert_eq!(q.method, Method::Post);
    assert_eq!(q.url, "http://10.0.0.1/api");
    let body = q.body.unwrap();
    assert_eq!(body, "{\"devicetype\": \"say \\\"hi\\\"\\\\\\u000a\"}");
    let v: serde_json::Value = serde_json::from_str(&body).unwrap();
    assert_eq!(v["devicetype"], "say \"hi\"\\\n");
}

#[test]
fn envelope_without_success_or_error_is_unrecognizable() {
    let empty: HueResponse<User> = HueResponse { success: None, error: None };
    assert!(matches!(empty.into_result(), Err(HueError::Protocol(ProtocolIssue::UnrecognizableResponse))));
    let empty: HueResponse<User> = HueResponse { success: None, error: None };
    assert!(matches!(decode_envelope(vec![empty]), Err(HueError::Protocol(ProtocolIssue::UnrecognizableResponse))));
}

#[test]
fn envelope_count_must_be_one() {
    assert!(matches!(decode_envelope::<User>(vec![]), Err(HueError::Protocol(ProtocolIssue::EnvelopeCount))));
    assert!(matches!(
        decode_envelope(vec![user("a"), user("b")]),
        Err(HueError::Protocol(ProtocolIssue::EnvelopeCount))
    ));
    assert_eq!(decode_envelope(vec![user("a")]).unwrap().username, "a");
}

#[test]
fn replies_report_first_error() {
    let ok = decode_replies(vec![user("a"), user("b")]).unwrap();
    assert_eq!(ok.len(), 2);
    assert_eq!(ok[1].username, "b");
    match decode_replies(vec![user("a"), failure(201), failure(7)]) {
        Err(HueError::Bridge(e)) => assert_eq!(e.code, 201),
        other => panic!("unexpected {:?}", other),
    }
    assert!(matches!(decode_replies::<User>(vec![]), Err(HueError::Protocol(ProtocolIssue::EnvelopeCount))));
}

#[test]
fn discovery_builds_bridge() {
    let d = Discovery::new("001788fffe100491".to_string(), "192.168.2.23".to_string());
    assert_eq!(d.id(), "001788fffe100491");
    assert_eq!(d.ip(), "192.168.2.23");
    let b = d.build_bridge();
    assert_eq!(b.ip, "192.168.2.23");
    let bridge = b.from_username("user1".to_string());
    assert_eq!(bridge.username, "user1");
}

#[test]
fn light_requests() {
    let bridge = BridgeBuilder::from_ip("10.0.0.9".to_string()).from_username("u".to_string());
    let q = bridge.lights_request();
    assert_eq!(q.method, Method::Get);
    assert_eq!(q.url, "http://10.0.0.9/api/u/lights");
    assert!(q.body.is_none());
    let q = bridge.light_state_request(12, &CommandLight::default().on().with_bri(1));
    assert_eq!(q.method, Method::Put);
    assert_eq!(q.url, "http://10.0.0.9/api/u/lights/12/state");
    assert_eq!(q.body.unwrap(), "{\"on\":true,\"bri\":1}");
}
