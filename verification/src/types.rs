use vstd::prelude::*;
use std::collections::HashMap;
use crate::json::{Body, Member, MemberView, Scalar, ScalarView, text, number};

verus! {

#[verifier::external_type_specification]
#[verifier::external_body]
pub struct ExJsonValue(serde_json::Value);

/// `Clone` of `serde_json::Value` (derived in serde_json): nothing is stated
/// of the copy.
pub assume_specification[ <serde_json::Value as Clone>::clone ](v: &serde_json::Value) -> serde_json::Value;

/// A browser session.
#[derive(Debug, Clone)]
pub struct Session {
    pub id: String,
    pub status: String,
    pub cdp_endpoint: String,
    pub token: String,
    pub stealth: String,
    pub created_at: String,
    pub expires_at: String,
}

/// Viewport dimensions.
#[derive(Debug, Clone)]
pub struct Viewport {
    pub width: u32,
    pub height: u32,
}

/// Proxy configuration.
#[derive(Debug, Clone)]
pub struct ProxyParams {
    /// Sent under the name `type`.
    pub proxy_type: String,
    pub country: Option<String>,
}

/// Parameters for creating a session.
#[derive(Debug, Clone)]
pub struct CreateSessionParams {
    pub stealth: Option<String>,
    pub proxy: Option<ProxyParams>,
    pub profile_id: Option<String>,
    pub viewport: Option<Viewport>,
}

/// Parameters for creating a fleet.
#[derive(Debug, Clone)]
pub struct CreateFleetParams {
    pub count: u32,
    pub stealth: Option<String>,
    pub proxy: Option<ProxyParams>,
}

/// Session list response with metrics.
#[derive(Debug, Clone)]
pub struct SessionListResponse {
    pub sessions: Vec<Session>,
    pub metrics: HashMap<String, serde_json::Value>,
}

/// A screenshot result.
#[derive(Debug, Clone)]
pub struct Screenshot {
    /// Base64-encoded PNG data.
    pub data: String,
    pub format: String,
}

/// Navigation response.
#[derive(Debug, Clone)]
pub struct NavigateResponse {
    pub url: String,
    pub title: String,
    pub status: u16,
}

/// Text extraction response.
#[derive(Debug, Clone)]
pub struct ExtractResponse {
    pub text: String,
}

/// JavaScript execution response.
#[derive(Debug, Clone)]
pub struct ExecuteResponse {
    pub result: serde_json::Value,
}

/// A fleet of browser sessions.
#[derive(Debug, Clone)]
pub struct Fleet {
    pub id: String,
    pub status: String,
    pub sessions: Vec<Session>,
    pub count: u32,
}

/// The member `name: value` when the value is present, nothing otherwise.
pub open spec fn optional_member<V>(name: Seq<char>, value: Option<V>) -> Seq<(Seq<char>, V)> {
    match value {
        Some(v) => seq![(name, v)],
        None => Seq::empty(),
    }
}

/// An optional string as an optional text member value.
pub open spec fn optional_text(s: Option<String>) -> Option<MemberView> {
    match s {
        Some(t) => Some(text(t@)),
        None => None,
    }
}

impl Viewport {
    /// The JSON object of a viewport: `width`, then `height`.
    pub open spec fn json_spec(&self) -> MemberView {
        MemberView::Object(
            seq![
                ("width"@, ScalarView::Number(self.width as u64)),
                ("height"@, ScalarView::Number(self.height as u64)),
            ],
        )
    }

    /// The viewport as a JSON object.
    pub fn to_json(&self) -> (r: Member)
        ensures
            r@ == self.json_spec(),
    {
        let mut fields: Vec<(String, Scalar)> = Vec::new();
        fields.push((String::from_str("width"), Scalar::Number(self.width as u64)));
        fields.push((String::from_str("height"), Scalar::Number(self.height as u64)));
        let r = Member::Object(fields);
        assert(crate::json::fields_view(fields@) =~= seq![
            ("width"@, ScalarView::Number(self.width as u64)),
            ("height"@, ScalarView::Number(self.height as u64)),
        ]);
        r
    }
}

impl ProxyParams {
    /// The members of a proxy's JSON object: its kind under `type`, then
    /// `country` when one is given.
    pub open spec fn fields_spec(&self) -> Seq<(Seq<char>, ScalarView)> {
        seq![("type"@, ScalarView::Text(self.proxy_type@))] + optional_member(
            "country"@,
            match self.country {
                Some(c) => Some(ScalarView::Text(c@)),
                None => None,
            },
        )
    }

    /// The JSON object of a proxy.
    pub open spec fn json_spec(&self) -> MemberView {
        MemberView::Object(self.fields_spec())
    }

    /// The proxy configuration as a JSON object.
    pub fn to_json(&self) -> (r: Member)
        ensures
            r@ == self.json_spec(),
    {
        let mut fields: Vec<(String, Scalar)> = Vec::new();
        fields.push((String::from_str("type"), Scalar::Text(self.proxy_type.clone())));
        match &self.country {
            Some(c) => {
                fields.push((String::from_str("country"), Scalar::Text(c.clone())));
            },
            None => {},
        }
        assert(crate::json::fields_view(fields@) =~= self.fields_spec());
        Member::Object(fields)
    }
}

/// An optional proxy as an optional member value.
pub open spec fn optional_proxy(p: Option<ProxyParams>) -> Option<MemberView> {
    match p {
        Some(p) => Some(p.json_spec()),
        None => None,
    }
}

/// An optional viewport as an optional member value.
pub open spec fn optional_viewport(v: Option<Viewport>) -> Option<MemberView> {
    match v {
        Some(v) => Some(v.json_spec()),
        None => None,
    }
}

/// Appends `name: text` to the body when the text is present.
fn push_optional_text(body: &mut Body, name: &str, value: &Option<String>)
    ensures
        final(body)@ == old(body)@ + optional_member(name@, optional_text(*value)),
{
    match value {
        Some(v) => body.push(name, Member::Scalar(Scalar::Text(v.clone()))),
        None => {},
    }
    assert(final(body)@ =~= old(body)@ + optional_member(name@, optional_text(*value)));
}

/// Appends the proxy member to the body when a proxy is given.
fn push_optional_proxy(body: &mut Body, value: &Option<ProxyParams>)
    ensures
        final(body)@ == old(body)@ + optional_member("proxy"@, optional_proxy(*value)),
{
    match value {
        Some(p) => body.push("proxy", p.to_json()),
        None => {},
    }
    assert(final(body)@ =~= old(body)@ + optional_member("proxy"@, optional_proxy(*value)));
}

impl CreateSessionParams {
    /// The members of the request body: `stealth`, `proxy`, `profile_id` and
    /// `viewport`, in that order, each only when it is given.
    pub open spec fn body_spec(&self) -> Seq<(Seq<char>, MemberView)> {
        optional_member("stealth"@, optional_text(self.stealth)) + optional_member(
            "proxy"@,
            optional_proxy(self.proxy),
        ) + optional_member("profile_id"@, optional_text(self.profile_id)) + optional_member(
            "viewport"@,
            optional_viewport(self.viewport),
        )
    }

    /// The parameters as a JSON request body.
    pub fn to_body(&self) -> (r: Body)
        ensures
            r@ == self.body_spec(),
    {
        let mut body = Body::empty();
        push_optional_text(&mut body, "stealth", &self.stealth);
        push_optional_proxy(&mut body, &self.proxy);
        push_optional_text(&mut body, "profile_id", &self.profile_id);
        match &self.viewport {
            Some(v) => body.push("viewport", v.to_json()),
            None => {},
        }
        assert(body@ =~= self.body_spec());
        body
    }
}

impl CreateFleetParams {
    /// The members of the request body: `count`, then `stealth` and `proxy`
    /// when they are given.
    pub open spec fn body_spec(&self) -> Seq<(Seq<char>, MemberView)> {
        seq![("count"@, number(self.count as u64))] + optional_member(
            "stealth"@,
            optional_text(self.stealth),
        ) + optional_member("proxy"@, optional_proxy(self.proxy))
    }

    /// The parameters as a JSON request body.
    pub fn to_body(&self) -> (r: Body)
        ensures
            r@ == self.body_spec(),
    {
        let mut body = Body::empty();
        body.push("count", Member::Scalar(Scalar::Number(self.count as u64)));
        push_optional_text(&mut body, "stealth", &self.stealth);
        push_optional_proxy(&mut body, &self.proxy);
        assert(body@ =~= self.body_spec());
        body
    }
}

} // verus!
