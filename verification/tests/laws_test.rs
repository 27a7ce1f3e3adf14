use meshbrow::client::{CONTENT_TYPE_VALUE, DEFAULT_BASE_URL, REQUEST_TIMEOUT_SECS};
use meshbrow::{
    decoded, is_error_status, read_empty_reply, read_reply, Body, Client, CreateFleetParams,
    CreateSessionParams, Error, Member, Method, Payload, ProxyParams, Scalar, Viewport,
};

fn client() -> Client {
    Client::with_base_url("k", "https://h.example")
}

#[test]
fn new_client_uses_public_api() {
    let c = Client::new("abc");
    assert_eq!(c.base_url(), DEFAULT_BASE_URL);
    assert_eq!(c.base_url(), "https://api.meshbrow.dev");
    assert_eq!(c.authorization_header().to_str().unwrap(), "Bearer abc");
    assert_eq!(REQUEST_TIMEOUT_SECS, 30);
    assert_eq!(CONTENT_TYPE_VALUE, "application/json");
}

#[test]
fn invalid_key_is_refused() {
    assert!(Client::try_with_base_url("bad\nkey", "https://h").is_none());
    assert!(Client::try_with_base_url("bad\u{7f}", "https://h").is_none());
    assert!(Client::try_with_base_url("tab\tand caf\u{e9}", "https://h").is_some());
    let c = Client::try_with_base_url("key", "https://h").unwrap();
    assert_eq!(c.base_url(), "https://h");
    assert_eq!(c.default_headers()[0].1, "Bearer key");
}

#[test]
fn url_appends_path_to_base() {
    assert_eq!(client().url("/v1/x"), "https://h.example/v1/x");
    assert_eq!(Client::with_base_url("k", "").url("/p"), "/p");
}

#[test]
fn ids_are_inserted_verbatim() {
    let r = client().get_session_request("a/b c");
    assert_eq!(r.url, "https://h.example/v1/sessions/a/b c");
}

#[test]
fn read_and_destroy_share_url() {
    let c = client();
    assert_eq!(c.get_session_request("s").url, c.destroy_session_request("s", true).url);
    assert_eq!(c.get_fleet_request("f").url, c.destroy_fleet_request("f").url);
    assert_eq!(c.create_session_request(None).url, c.list_sessions_request().url);
    assert_eq!(c.destroy_session_request("s", true).method, Method::Delete);
}

#[test]
fn destroy_with_profile_saved_has_body() {
    let r = client().destroy_session_request("s", true);
    assert_eq!(
        r.body,
        Some(Body { members: vec![("save_profile".to_string(), Member::Scalar(Scalar::Bool(true)))] })
    );
}

#[test]
fn default_session_equals_max_stealth() {
    let c = client();
    let explicit = CreateSessionParams { stealth: Some("max".into()), proxy: None, profile_id: None, viewport: None };
    assert_eq!(c.create_session_request(None), c.create_session_request(Some(explicit)));
}

#[test]
fn empty_params_send_empty_object() {
    let c = client();
    let none = CreateSessionParams { stealth: None, proxy: None, profile_id: None, viewport: None };
    assert_eq!(c.create_session_request(Some(none)).body, Some(Body { members: vec![] }));
}

#[test]
fn full_session_params_in_order() {
    let params = CreateSessionParams {
        stealth: Some("low".into()),
        proxy: Some(ProxyParams { proxy_type: "dc".into(), country: None }),
        profile_id: Some("p1".into()),
        viewport: Some(Viewport { width: 1280, height: 720 }),
    };
    let b = params.to_body();
    let names: Vec<&str> = b.members.iter().map(|(n, _)| n.as_str()).collect();
    assert_eq!(names, vec!["stealth", "proxy", "profile_id", "viewport"]);
    assert_eq!(b.members[1].1, Member::Object(vec![("type".to_string(), Scalar::Text("dc".into()))]));
    assert_eq!(
        b.members[3].1,
        Member::Object(vec![
            ("width".to_string(), Scalar::Number(1280)),
            ("height".to_string(), Scalar::Number(720)),
        ])
    );
}

#[test]
fn fleet_params_without_options() {
    let b = CreateFleetParams { count: 3, stealth: None, proxy: None }.to_body();
    assert_eq!(b.members, vec![("count".to_string(), Member::Scalar(Scalar::Number(3)))]);
}

#[test]
fn navigate_default_wait_is_load() {
    let c = client();
    assert_eq!(c.navigate_request("s", "u", None), c.navigate_request("s", "u", Some("load")));
    let r = c.navigate_request("s", "u", Some("networkidle"));
    assert_eq!(r.body.unwrap().members[1].1, Member::Scalar(Scalar::Text("networkidle".into())));
}

#[test]
fn screenshot_and_extract_optional_members() {
    let c = client();
    let r = c.screenshot_request("s", Some("#main"), true);
    assert_eq!(
        r.body.unwrap().members,
        vec![
            ("full_page".to_string(), Member::Scalar(Scalar::Bool(true))),
            ("selector".to_string(), Member::Scalar(Scalar::Text("#main".into()))),
        ]
    );
    let r = c.extract_request("s", Some("p"), Some(500));
    assert_eq!(
        r.body.unwrap().members,
        vec![
            ("selector".to_string(), Member::Scalar(Scalar::Text("p".into()))),
            ("max_length".to_string(), Member::Scalar(Scalar::Number(500))),
        ]
    );
    let r = c.extract_request("s", None, Some(7));
    assert_eq!(r.body.unwrap().members, vec![("max_length".to_string(), Member::Scalar(Scalar::Number(7)))]);
}

#[test]
fn error_status_boundary() {
    assert!(!is_error_status(399));
    assert!(is_error_status(400));
    assert!(is_error_status(500));
    assert!(read_empty_reply(399, None).is_ok());
    match read_empty_reply(400, Some(Ok("bad".to_string()))) {
        Err(Error::Api { status, body }) => {
            assert_eq!(status, 400);
            assert_eq!(body, "bad");
        }
        other => panic!("unexpected {:?}", other),
    }
    match read_empty_reply(503, None) {
        Err(Error::Api { status, body }) => {
            assert_eq!(status, 503);
            assert_eq!(body, "");
        }
        other => panic!("unexpected {:?}", other),
    }
}

#[test]
fn error_status_fails_alike() {
    let a = read_reply(418, Ok("teapot".to_string()), Some(serde_json::Value::from(1)));
    let b = read_empty_reply(418, Some(Ok("teapot".to_string())));
    match (a, b) {
        (Err(Error::Api { status: s1, body: b1 }), Err(Error::Api { status: s2, body: b2 })) => {
            assert_eq!((s1, b1), (s2, b2));
        }
        other => panic!("unexpected {:?}", other),
    }
}

#[test]
fn empty_success_body_fails_to_parse() {
    let out = read_reply(200, Ok(String::new()), Some(serde_json::Value::from(1)));
    match out {
        Ok(Payload::WholeBody(t)) => {
            assert_eq!(t, "");
            assert!(matches!(decoded(serde_json::from_str::<serde_json::Value>(&t)), Err(Error::Parse(_))));
        }
        other => panic!("unexpected {:?}", other),
    }
}

#[test]
fn envelope_first_then_whole_body() {
    let data: serde_json::Value = serde_json::from_str("{\"id\":\"a\"}").unwrap();
    match read_reply(200, Ok("{\"data\":{\"id\":\"a\"},\"x\":2}".to_string()), Some(data)) {
        Ok(Payload::EnvelopeData(d)) => assert_eq!(d["id"], "a"),
        other => panic!("unexpected {:?}", other),
    }
    match read_reply(201, Ok("{\"data\":null}".to_string()), Some(serde_json::Value::Null)) {
        Ok(Payload::WholeBody(t)) => assert_eq!(t, "{\"data\":null}"),
        other => panic!("unexpected {:?}", other),
    }
    match read_reply(200, Ok("{\"x\":1}".to_string()), None) {
        Ok(Payload::WholeBody(t)) => assert_eq!(t, "{\"x\":1}"),
        other => panic!("unexpected {:?}", other),
    }
    match read_reply(200, Ok("[7]".to_string()), Some(serde_json::Value::from(7))) {
        Ok(Payload::EnvelopeData(d)) => assert_eq!(d, 7),
        other => panic!("unexpected {:?}", other),
    }
}

#[test]
fn header_values_match_texts() {
    let c = client();
    let texts = c.default_headers();
    let values = c.header_values();
    assert_eq!(values.len(), 3);
    for i in 0..3 {
        assert_eq!(values[i].0, texts[i].0);
        assert_eq!(values[i].1.to_str().unwrap(), texts[i].1);
    }
}

#[test]
fn decode_errors_become_parse_errors() {
    let bad = serde_json::from_str::<u32>("nope");
    assert!(matches!(decoded(bad), Err(Error::Parse(_))));
    assert_eq!(decoded(serde_json::from_str::<u32>("5")).unwrap(), 5);
}

#[test]
fn cloned_client_keeps_configuration() {
    let c = Client::with_base_url("key", "https://h.example");
    let d = c.clone();
    assert_eq!(d.base_url(), "https://h.example");
    assert_eq!(d.authorization_header().to_str().unwrap(), "Bearer key");
    assert_eq!(d.default_headers(), c.default_headers());
}
