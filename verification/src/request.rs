use vstd::prelude::*;
use crate::client::Client;
use crate::json::{Body, Member, MemberView, Scalar, text, boolean, number};
use crate::types::{CreateFleetParams, CreateSessionParams, optional_member};

verus! {

/// The HTTP methods the API is called with.
#[derive(Debug, Clone, Copy, PartialEq, Eq, Structural)]
pub enum Method {
    Get,
    Post,
    Delete,
}

/// One call of the API, ready to be sent: method, full URL and JSON body.
#[derive(Debug, Clone, PartialEq, Eq)]
pub struct ApiRequest {
    pub method: Method,
    pub url: String,
    pub body: Option<Body>,
}

/// The members of a JSON request body.
pub type BodyView = Seq<(Seq<char>, MemberView)>;

/// The mathematical value of an [`ApiRequest`].
pub struct RequestView {
    pub method: Method,
    pub url: Seq<char>,
    pub body: Option<BodyView>,
}

impl View for ApiRequest {
    type V = RequestView;

    open spec fn view(&self) -> RequestView {
        RequestView {
            method: self.method,
            url: self.url@,
            body: match self.body {
                Some(b) => Some(b@),
                None => None,
            },
        }
    }
}

/// An optional string argument, by its characters.
pub open spec fn opt_str(s: Option<&str>) -> Option<Seq<char>> {
    match s {
        Some(t) => Some(t@),
        None => None,
    }
}

/// The collection of sessions.
pub open spec fn sessions_path() -> Seq<char> {
    "/v1/sessions"@
}

/// One session; the id is inserted as it is.
pub open spec fn session_path(id: Seq<char>) -> Seq<char> {
    "/v1/sessions/"@ + id
}

/// The collection of fleets.
pub open spec fn fleets_path() -> Seq<char> {
    "/v1/fleet"@
}

/// One fleet; the id is inserted as it is.
pub open spec fn fleet_path(id: Seq<char>) -> Seq<char> {
    "/v1/fleet/"@ + id
}

/// The request with the given parts.
pub open spec fn request_of(method: Method, url: Seq<char>, body: Option<BodyView>) -> RequestView {
    RequestView { method, url, body }
}

/// The body sent when a session is created without parameters.
pub open spec fn default_session_body() -> BodyView {
    seq![("stealth"@, text("max"@))]
}

/// Launch a session: `POST /v1/sessions` with the parameters as the body,
/// or `{"stealth": "max"}` when none are given.
pub open spec fn create_session_spec(base: Seq<char>, params: Option<CreateSessionParams>) -> RequestView {
    request_of(
        Method::Post,
        base + sessions_path(),
        Some(
            match params {
                Some(p) => p.body_spec(),
                None => default_session_body(),
            },
        ),
    )
}

/// Read a session: `GET /v1/sessions/{id}`.
pub open spec fn get_session_spec(base: Seq<char>, id: Seq<char>) -> RequestView {
    request_of(Method::Get, base + session_path(id), None)
}

/// List sessions: `GET /v1/sessions`.
pub open spec fn list_sessions_spec(base: Seq<char>) -> RequestView {
    request_of(Method::Get, base + sessions_path(), None)
}

/// Destroy a session: `DELETE /v1/sessions/{id}`, with the body
/// `{"save_profile": true}` exactly when the profile is to be saved.
pub open spec fn destroy_session_spec(base: Seq<char>, id: Seq<char>, save_profile: bool) -> RequestView {
    request_of(
        Method::Delete,
        base + session_path(id),
        if save_profile {
            Some(seq![("save_profile"@, boolean(true))])
        } else {
            None
        },
    )
}

/// Navigate: `POST /v1/sessions/{id}/navigate` with `url` and `wait_until`,
/// which is `"load"` when not given.
pub open spec fn navigate_spec(
    base: Seq<char>,
    session_id: Seq<char>,
    url: Seq<char>,
    wait_until: Option<Seq<char>>,
) -> RequestView {
    request_of(
        Method::Post,
        base + (session_path(session_id) + "/navigate"@),
        Some(
            seq![
                ("url"@, text(url)),
                ("wait_until"@, text(
                    match wait_until {
                        Some(w) => w,
                        None => "load"@,
                    },
                )),
            ],
        ),
    )
}

/// Screenshot: `POST /v1/sessions/{id}/screenshot` with `full_page`, and
/// `selector` when one is given.
pub open spec fn screenshot_spec(
    base: Seq<char>,
    session_id: Seq<char>,
    selector: Option<Seq<char>>,
    full_page: bool,
) -> RequestView {
    request_of(
        Method::Post,
        base + (session_path(session_id) + "/screenshot"@),
        Some(
            seq![("full_page"@, boolean(full_page))] + optional_member(
                "selector"@,
                match selector {
                    Some(s) => Some(text(s)),
                    None => None,
                },
            ),
        ),
    )
}

/// Click: `POST /v1/sessions/{id}/click` with `selector`.
pub open spec fn click_spec(base: Seq<char>, session_id: Seq<char>, selector: Seq<char>) -> RequestView {
    request_of(
        Method::Post,
        base + (session_path(session_id) + "/click"@),
        Some(seq![("selector"@, text(selector))]),
    )
}

/// Type text: `POST /v1/sessions/{id}/type` with `selector`, `text` and
/// `clear`.
pub open spec fn type_text_spec(
    base: Seq<char>,
    session_id: Seq<char>,
    selector: Seq<char>,
    typed: Seq<char>,
    clear: bool,
) -> RequestView {
    request_of(
        Method::Post,
        base + (session_path(session_id) + "/type"@),
        Some(
            seq![
                ("selector"@, text(selector)),
                ("text"@, text(typed)),
                ("clear"@, boolean(clear)),
            ],
        ),
    )
}

/// Extract text: `POST /v1/sessions/{id}/extract` with `selector` and
/// `max_length`, each only when given.
pub open spec fn extract_spec(
    base: Seq<char>,
    session_id: Seq<char>,
    selector: Option<Seq<char>>,
    max_length: Option<u32>,
) -> RequestView {
    request_of(
        Method::Post,
        base + (session_path(session_id) + "/extract"@),
        Some(
            optional_member(
                "selector"@,
                match selector {
                    Some(s) => Some(text(s)),
                    None => None,
                },
            ) + optional_member(
                "max_length"@,
                match max_length {
                    Some(m) => Some(number(m as u64)),
                    None => None,
                },
            ),
        ),
    )
}

/// Execute JavaScript: `POST /v1/sessions/{id}/execute` with `script`.
pub open spec fn execute_spec(base: Seq<char>, session_id: Seq<char>, script: Seq<char>) -> RequestView {
    request_of(
        Method::Post,
        base + (session_path(session_id) + "/execute"@),
        Some(seq![("script"@, text(script))]),
    )
}

/// Launch a fleet: `POST /v1/fleet` with the parameters as the body.
pub open spec fn create_fleet_spec(base: Seq<char>, params: CreateFleetParams) -> RequestView {
    request_of(Method::Post, base + fleets_path(), Some(params.body_spec()))
}

/// Read a fleet: `GET /v1/fleet/{id}`.
pub open spec fn get_fleet_spec(base: Seq<char>, id: Seq<char>) -> RequestView {
    request_of(Method::Get, base + fleet_path(id), None)
}

/// Destroy a fleet: `DELETE /v1/fleet/{id}`.
pub open spec fn destroy_fleet_spec(base: Seq<char>, id: Seq<char>) -> RequestView {
    request_of(Method::Delete, base + fleet_path(id), None)
}

/// The path of a session.
fn session_path_string(id: &str) -> (r: String)
    ensures
        r@ == session_path(id@),
{
    let mut p = String::from_str("/v1/sessions/");
    p.append(id);
    p
}

/// The path of an action on a session.
fn session_action_path(id: &str, action: &str) -> (r: String)
    ensures
        r@ == session_path(id@) + action@,
{
    let mut p = session_path_string(id);
    p.append(action);
    p
}

/// The path of a fleet.
fn fleet_path_string(id: &str) -> (r: String)
    ensures
        r@ == fleet_path(id@),
{
    let mut p = String::from_str("/v1/fleet/");
    p.append(id);
    p
}

/// A body of one text member.
fn text_body(name: &str, value: &str) -> (r: Body)
    ensures
        r@ == seq![(name@, text(value@))],
{
    let mut b = Body::empty();
    b.push(name, Member::Scalar(Scalar::Text(String::from_str(value))));
    b
}

impl Client {
    /// The request that launches a session.
    pub fn create_session_request(&self, params: Option<CreateSessionParams>) -> (r: ApiRequest)
        ensures
            r@ == create_session_spec(self.base_url_view(), params),
    {
        let body = match &params {
            Some(p) => p.to_body(),
            None => text_body("stealth", "max"),
        };
        ApiRequest { method: Method::Post, url: self.url("/v1/sessions"), body: Some(body) }
    }

    /// The request that reads a session.
    pub fn get_session_request(&self, id: &str) -> (r: ApiRequest)
        ensures
            r@ == get_session_spec(self.base_url_view(), id@),
    {
        let path = session_path_string(id);
        ApiRequest { method: Method::Get, url: self.url(path.as_str()), body: None }
    }

    /// The request that lists the active sessions.
    pub fn list_sessions_request(&self) -> (r: ApiRequest)
        ensures
            r@ == list_sessions_spec(self.base_url_view()),
    {
        ApiRequest { method: Method::Get, url: self.url("/v1/sessions"), body: None }
    }

    /// The request that destroys a session, saving its profile when asked.
    pub fn destroy_session_request(&self, id: &str, save_profile: bool) -> (r: ApiRequest)
        ensures
            r@ == destroy_session_spec(self.base_url_view(), id@, save_profile),
    {
        let body = if save_profile {
            let mut b = Body::empty();
            b.push("save_profile", Member::Scalar(Scalar::Bool(true)));
            Some(b)
        } else {
            None
        };
        let path = session_path_string(id);
        ApiRequest { method: Method::Delete, url: self.url(path.as_str()), body }
    }

    /// The request that navigates a session's browser to a URL.
    pub fn navigate_request(&self, session_id: &str, url: &str, wait_until: Option<&str>) -> (r:
        ApiRequest)
        ensures
            r@ == navigate_spec(self.base_url_view(), session_id@, url@, opt_str(wait_until)),
    {
        let mut b = Body::empty();
        b.push("url", Member::Scalar(Scalar::Text(String::from_str(url))));
        let wait = match wait_until {
            Some(w) => w,
            None => "load",
        };
        b.push("wait_until", Member::Scalar(Scalar::Text(String::from_str(wait))));
        let path = session_action_path(session_id, "/navigate");
        let r = ApiRequest { method: Method::Post, url: self.url(path.as_str()), body: Some(b) };
        assert(r@.body =~= navigate_spec(self.base_url_view(), session_id@, url@, opt_str(wait_until)).body);
        r
    }

    /// The request that takes a screenshot.
    pub fn screenshot_request(&self, session_id: &str, selector: Option<&str>, full_page: bool) -> (r:
        ApiRequest)
        ensures
            r@ == screenshot_spec(self.base_url_view(), session_id@, opt_str(selector), full_page),
    {
        let mut b = Body::empty();
        b.push("full_page", Member::Scalar(Scalar::Bool(full_page)));
        match selector {
            Some(s) => b.push("selector", Member::Scalar(Scalar::Text(String::from_str(s)))),
            None => {},
        }
        let path = session_action_path(session_id, "/screenshot");
        let r = ApiRequest { method: Method::Post, url: self.url(path.as_str()), body: Some(b) };
        assert(r@.body =~= screenshot_spec(self.base_url_view(), session_id@, opt_str(selector), full_page).body);
        r
    }

    /// The request that clicks an element.
    pub fn click_request(&self, session_id: &str, selector: &str) -> (r: ApiRequest)
        ensures
            r@ == click_spec(self.base_url_view(), session_id@, selector@),
    {
        let path = session_action_path(session_id, "/click");
        ApiRequest {
            method: Method::Post,
            url: self.url(path.as_str()),
            body: Some(text_body("selector", selector)),
        }
    }

    /// The request that types text into an input.
    pub fn type_text_request(&self, session_id: &str, selector: &str, text: &str, clear: bool) -> (r:
        ApiRequest)
        ensures
            r@ == type_text_spec(self.base_url_view(), session_id@, selector@, text@, clear),
    {
        let mut b = Body::empty();
        b.push("selector", Member::Scalar(Scalar::Text(String::from_str(selector))));
        b.push("text", Member::Scalar(Scalar::Text(String::from_str(text))));
        b.push("clear", Member::Scalar(Scalar::Bool(clear)));
        let path = session_action_path(session_id, "/type");
        let r = ApiRequest { method: Method::Post, url: self.url(path.as_str()), body: Some(b) };
        assert(r@.body =~= type_text_spec(self.base_url_view(), session_id@, selector@, text@, clear).body);
        r
    }

    /// The request that extracts text from the page.
    pub fn extract_request(&self, session_id: &str, selector: Option<&str>, max_length: Option<u32>) -> (r:
        ApiRequest)
        ensures
            r@ == extract_spec(self.base_url_view(), session_id@, opt_str(selector), max_length),
    {
        let mut b = Body::empty();
        match selector {
            Some(s) => b.push("selector", Member::Scalar(Scalar::Text(String::from_str(s)))),
            None => {},
        }
        match max_length {
            Some(m) => b.push("max_length", Member::Scalar(Scalar::Number(m as u64))),
            None => {},
        }
        let path = session_action_path(session_id, "/extract");
        let r = ApiRequest { method: Method::Post, url: self.url(path.as_str()), body: Some(b) };
        assert(r@.body =~= extract_spec(self.base_url_view(), session_id@, opt_str(selector), max_length).body);
        r
    }

    /// The request that runs a script in the page.
    pub fn execute_request(&self, session_id: &str, script: &str) -> (r: ApiRequest)
        ensures
            r@ == execute_spec(self.base_url_view(), session_id@, script@),
    {
        let path = session_action_path(session_id, "/execute");
        ApiRequest {
            method: Method::Post,
            url: self.url(path.as_str()),
            body: Some(text_body("script", script)),
        }
    }

    /// The request that launches a fleet.
    pub fn create_fleet_request(&self, params: CreateFleetParams) -> (r: ApiRequest)
        ensures
            r@ == create_fleet_spec(self.base_url_view(), params),
    {
        ApiRequest { method: Method::Post, url: self.url("/v1/fleet"), body: Some(params.to_body()) }
    }

    /// The request that reads a fleet.
    pub fn get_fleet_request(&self, id: &str) -> (r: ApiRequest)
        ensures
            r@ == get_fleet_spec(self.base_url_view(), id@),
    {
        let path = fleet_path_string(id);
        ApiRequest { method: Method::Get, url: self.url(path.as_str()), body: None }
    }

    /// The request that destroys every session of a fleet.
    pub fn destroy_fleet_request(&self, id: &str) -> (r: ApiRequest)
        ensures
            r@ == destroy_fleet_spec(self.base_url_view(), id@),
    {
        let path = fleet_path_string(id);
        ApiRequest { method: Method::Delete, url: self.url(path.as_str()), body: None }
    }
}

} // verus!
