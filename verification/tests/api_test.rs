use meshbrow::client::USER_AGENT_VALUE;
use meshbrow::{
    read_empty_reply, read_reply, ApiRequest, Body, Client, CreateFleetParams,
    CreateSessionParams, Error, Member, Method, Payload, ProxyParams, Scalar,
};

const BASE: &str = "http://127.0.0.1:9999";

fn test_client() -> Client {
    Client::with_base_url("test-api-key", BASE)
}

fn text(s: &str) -> Member {
    Member::Scalar(Scalar::Text(s.to_string()))
}

fn boolean(b: bool) -> Member {
    Member::Scalar(Scalar::Bool(b))
}

fn body(members: Vec<(&str, Member)>) -> Body {
    Body { members: members.into_iter().map(|(n, m)| (n.to_string(), m)).collect() }
}

fn url(path: &str) -> String {
    format!("{}{}", BASE, path)
}

/// The `data` member of a reply whose text is a JSON object, as the envelope
/// parse finds it (these replies name `data` at most once).
fn envelope(text: &str) -> Option<serde_json::Value> {
    match serde_json::from_str::<serde_json::Value>(text) {
        Ok(serde_json::Value::Object(mut members)) => members.remove("data"),
        _ => None,
    }
}

fn read_json(status: u16, text: &str) -> Result<Payload, Error> {
    read_reply(status, Ok(text.to_string()), envelope(text))
}

fn data_of(p: Payload) -> serde_json::Value {
    match p {
        Payload::EnvelopeData(d) => d,
        Payload::WholeBody(t) => serde_json::from_str(&t).unwrap(),
    }
}

#[test]
fn scenario_create_session_basic() {
    let client = test_client();
    let req = client.create_session_request(None);
    assert_eq!(req.method, Method::Post);
    assert_eq!(req.url, url("/v1/sessions"));
    assert_eq!(req.body, Some(body(vec![("stealth", text("max"))])));
    let headers = client.default_headers();
    assert_eq!(headers[0], ("Authorization".to_string(), "Bearer test-api-key".to_string()));
    assert_eq!(headers[1], ("Content-Type".to_string(), "application/json".to_string()));

    let reply = r#"{"data":{"id":"mb_test1","status":"ready","cdp_endpoint":"wss://api.meshbrow.dev/cdp/mb_test1","token":"tok1","created_at":"2026-06-14T00:00:00Z","expires_at":"2026-06-14T01:00:00Z"}}"#;
    let session = data_of(read_json(201, reply).unwrap());
    assert_eq!(session["id"], "mb_test1");
    assert_eq!(session["status"], "ready");
    assert_eq!(session["cdp_endpoint"], "wss://api.meshbrow.dev/cdp/mb_test1");
    assert_eq!(session["token"], "tok1");
}

#[test]
fn scenario_create_session_with_proxy() {
    let client = test_client();
    let req = client.create_session_request(Some(CreateSessionParams {
        stealth: Some("max".into()),
        proxy: Some(ProxyParams { proxy_type: "residential".into(), country: Some("US".into()) }),
        profile_id: None,
        viewport: None,
    }));
    assert_eq!(req.method, Method::Post);
    assert_eq!(req.url, url("/v1/sessions"));
    let proxy = Member::Object(vec![
        ("type".to_string(), Scalar::Text("residential".into())),
        ("country".to_string(), Scalar::Text("US".into())),
    ]);
    assert_eq!(req.body, Some(body(vec![("stealth", text("max")), ("proxy", proxy)])));
    let session = data_of(read_json(201, r#"{"data": {"id": "mb_proxy1", "status": "ready"}}"#).unwrap());
    assert_eq!(session["id"], "mb_proxy1");
}

#[test]
fn scenario_get_session() {
    let req = test_client().get_session_request("mb_abc123");
    assert_eq!(req, ApiRequest { method: Method::Get, url: url("/v1/sessions/mb_abc123"), body: None });
    let reply = r#"{"data": {"id": "mb_abc123", "status": "ready", "stealth": "max", "created_at": "2026-06-14T00:00:00Z"}}"#;
    let session = data_of(read_json(200, reply).unwrap());
    assert_eq!(session["id"], "mb_abc123");
    assert_eq!(session["stealth"], "max");
}

#[test]
fn scenario_list_sessions() {
    let req = test_client().list_sessions_request();
    assert_eq!(req, ApiRequest { method: Method::Get, url: url("/v1/sessions"), body: None });
    let reply = r#"{"sessions": [{"id": "mb_1", "status": "ready"}, {"id": "mb_2", "status": "ready"}], "metrics": {"active_sessions": 2}}"#;
    let out = read_json(200, reply).unwrap();
    assert!(matches!(out, Payload::WholeBody(_)));
    let resp = data_of(out);
    assert_eq!(resp["sessions"].as_array().unwrap().len(), 2);
    assert_eq!(resp["sessions"][0]["id"], "mb_1");
}

#[test]
fn scenario_destroy_session() {
    let req = test_client().destroy_session_request("mb_destroy1", false);
    assert_eq!(req, ApiRequest { method: Method::Delete, url: url("/v1/sessions/mb_destroy1"), body: None });
    assert!(read_empty_reply(204, None).is_ok());
}

#[test]
fn scenario_navigate() {
    let req = test_client().navigate_request("mb_1", "https://example.com", None);
    assert_eq!(req.method, Method::Post);
    assert_eq!(req.url, url("/v1/sessions/mb_1/navigate"));
    assert_eq!(
        req.body,
        Some(body(vec![("url", text("https://example.com")), ("wait_until", text("load"))]))
    );
    let reply = r#"{"data": {"url": "https://example.com", "title": "Example Domain", "status": 200}}"#;
    let resp = data_of(read_json(200, reply).unwrap());
    assert_eq!(resp["url"], "https://example.com");
    assert_eq!(resp["title"], "Example Domain");
    assert_eq!(resp["status"], 200);
}

#[test]
fn scenario_screenshot() {
    let req = test_client().screenshot_request("mb_1", None, false);
    assert_eq!(req.url, url("/v1/sessions/mb_1/screenshot"));
    assert_eq!(req.body, Some(body(vec![("full_page", boolean(false))])));
    let reply = r#"{"data": {"data": "iVBORw0KGgo=", "format": "png"}}"#;
    let shot = data_of(read_json(200, reply).unwrap());
    assert_eq!(shot["data"], "iVBORw0KGgo=");
    assert_eq!(shot["format"], "png");
}

#[test]
fn scenario_click() {
    let req = test_client().click_request("mb_1", "button.submit");
    assert_eq!(req.method, Method::Post);
    assert_eq!(req.url, url("/v1/sessions/mb_1/click"));
    assert_eq!(req.body, Some(body(vec![("selector", text("button.submit"))])));
    assert!(read_empty_reply(200, None).is_ok());
}

#[test]
fn scenario_type_text() {
    let req = test_client().type_text_request("mb_1", "input#email", "test@example.com", true);
    assert_eq!(req.url, url("/v1/sessions/mb_1/type"));
    assert_eq!(
        req.body,
        Some(body(vec![
            ("selector", text("input#email")),
            ("text", text("test@example.com")),
            ("clear", boolean(true)),
        ]))
    );
    assert!(read_empty_reply(200, None).is_ok());
}

#[test]
fn scenario_extract() {
    let req = test_client().extract_request("mb_1", None, None);
    assert_eq!(req.url, url("/v1/sessions/mb_1/extract"));
    assert_eq!(req.body, Some(body(vec![])));
    let resp = data_of(read_json(200, r#"{"data": {"text": "Hello World"}}"#).unwrap());
    assert_eq!(resp["text"], "Hello World");
}

#[test]
fn scenario_execute() {
    let req = test_client().execute_request("mb_1", "return 21 * 2");
    assert_eq!(req.url, url("/v1/sessions/mb_1/execute"));
    assert_eq!(req.body, Some(body(vec![("script", text("return 21 * 2"))])));
    let resp = data_of(read_json(200, r#"{"data": {"result": 42}}"#).unwrap());
    assert_eq!(resp["result"], serde_json::Value::from(42));
}

#[test]
fn scenario_create_fleet() {
    let req = test_client().create_fleet_request(CreateFleetParams {
        count: 5,
        stealth: Some("max".into()),
        proxy: Some(ProxyParams { proxy_type: "residential".into(), country: Some("DE".into()) }),
    });
    assert_eq!(req.method, Method::Post);
    assert_eq!(req.url, url("/v1/fleet"));
    let proxy = Member::Object(vec![
        ("type".to_string(), Scalar::Text("residential".into())),
        ("country".to_string(), Scalar::Text("DE".into())),
    ]);
    assert_eq!(
        req.body,
        Some(body(vec![
            ("count", Member::Scalar(Scalar::Number(5))),
            ("stealth", text("max")),
            ("proxy", proxy),
        ]))
    );
    let reply = r#"{"data": {"id": "fleet_1", "status": "ready", "sessions": [{"id": "mb_1", "status": "ready"}, {"id": "mb_2", "status": "ready"}], "count": 2}}"#;
    let fleet = data_of(read_json(201, reply).unwrap());
    assert_eq!(fleet["id"], "fleet_1");
    assert_eq!(fleet["sessions"].as_array().unwrap().len(), 2);
}

#[test]
fn scenario_get_fleet() {
    let req = test_client().get_fleet_request("fleet_abc");
    assert_eq!(req, ApiRequest { method: Method::Get, url: url("/v1/fleet/fleet_abc"), body: None });
    let reply = r#"{"data": {"id": "fleet_abc", "status": "ready", "sessions": [{"id": "mb_1", "status": "ready"}], "count": 1}}"#;
    let fleet = data_of(read_json(200, reply).unwrap());
    assert_eq!(fleet["id"], "fleet_abc");
    assert_eq!(fleet["count"], 1);
}

#[test]
fn scenario_destroy_fleet() {
    let req = test_client().destroy_fleet_request("fleet_abc");
    assert_eq!(req, ApiRequest { method: Method::Delete, url: url("/v1/fleet/fleet_abc"), body: None });
    assert!(read_empty_reply(204, None).is_ok());
}

#[test]
fn scenario_api_error_401() {
    let reply = r#"{"error": {"code": "unauthorized", "message": "Invalid API key"}}"#;
    let result = read_json(401, reply);
    assert!(result.is_err());
    match result.unwrap_err() {
        Error::Api { status, body } => {
            assert_eq!(status, 401);
            assert_eq!(body, reply);
        }
        other => panic!("expected Api error, got {:?}", other),
    }
}

#[test]
fn scenario_api_error_404() {
    let reply = r#"{"error": {"code": "not_found", "message": "session not found"}}"#;
    let result = read_json(404, reply);
    assert!(result.is_err());
    match result.unwrap_err() {
        Error::Api { status, .. } => assert_eq!(status, 404),
        other => panic!("expected Api error, got {:?}", other),
    }
}

#[test]
fn scenario_user_agent() {
    let client = test_client();
    let req = client.get_session_request("mb_1");
    assert_eq!(req, ApiRequest { method: Method::Get, url: url("/v1/sessions/mb_1"), body: None });
    let headers = client.default_headers();
    assert!(headers.contains(&("User-Agent".to_string(), "meshbrow-rust/0.1.0".to_string())));
    assert_eq!(USER_AGENT_VALUE, "meshbrow-rust/0.1.0");
    let sent = client.header_values();
    assert_eq!(sent[2].0, "User-Agent");
    assert_eq!(sent[2].1.to_str().unwrap(), "meshbrow-rust/0.1.0");
    let session = data_of(read_json(200, r#"{"data": {"id": "mb_1", "status": "ready"}}"#).unwrap());
    assert_eq!(session["id"], "mb_1");
}
