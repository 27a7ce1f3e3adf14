use vstd::prelude::*;
use crate::error::ErrorView;
use crate::json::{text, number, MemberView, distinct_names};
use crate::client::Client;
use crate::reply::{empty_reply_spec, json_is_null, reply_spec, text_or_empty, ReplyView};
use crate::request::{
    Method, create_session_spec, list_sessions_spec, get_session_spec, destroy_session_spec,
    navigate_spec, screenshot_spec, click_spec, type_text_spec, extract_spec, execute_spec,
    create_fleet_spec, get_fleet_spec, destroy_fleet_spec,
};
use crate::types::{CreateFleetParams, CreateSessionParams, optional_member, optional_text, optional_proxy, optional_viewport};

verus! {

/// `prefix` is where `s` begins.
pub open spec fn starts_with(s: Seq<char>, prefix: Seq<char>) -> bool {
    prefix.len() <= s.len() && s.subrange(0, prefix.len() as int) == prefix
}

proof fn lemma_concat_starts_with(base: Seq<char>, path: Seq<char>)
    ensures
        starts_with(base + path, base),
{
    assert((base + path).subrange(0, base.len() as int) =~= base);
}

/// Every request goes to a URL that begins with the client's base URL.
pub proof fn law_requests_stay_under_base_url(
    base: Seq<char>,
    id: Seq<char>,
    other: Seq<char>,
    opt: Option<Seq<char>>,
    flag: bool,
    max_length: Option<u32>,
    session_params: Option<CreateSessionParams>,
    fleet_params: CreateFleetParams,
)
    ensures
        starts_with(create_session_spec(base, session_params).url, base),
        starts_with(get_session_spec(base, id).url, base),
        starts_with(list_sessions_spec(base).url, base),
        starts_with(destroy_session_spec(base, id, flag).url, base),
        starts_with(navigate_spec(base, id, other, opt).url, base),
        starts_with(screenshot_spec(base, id, opt, flag).url, base),
        starts_with(click_spec(base, id, other).url, base),
        starts_with(type_text_spec(base, id, other, other, flag).url, base),
        starts_with(extract_spec(base, id, opt, max_length).url, base),
        starts_with(execute_spec(base, id, other).url, base),
        starts_with(create_fleet_spec(base, fleet_params).url, base),
        starts_with(get_fleet_spec(base, id).url, base),
        starts_with(destroy_fleet_spec(base, id).url, base),
{
    lemma_concat_starts_with(base, "/v1/sessions"@);
    lemma_concat_starts_with(base, "/v1/sessions/"@ + id);
    lemma_concat_starts_with(base, "/v1/sessions/"@ + id + "/navigate"@);
    lemma_concat_starts_with(base, "/v1/sessions/"@ + id + "/screenshot"@);
    lemma_concat_starts_with(base, "/v1/sessions/"@ + id + "/click"@);
    lemma_concat_starts_with(base, "/v1/sessions/"@ + id + "/type"@);
    lemma_concat_starts_with(base, "/v1/sessions/"@ + id + "/extract"@);
    lemma_concat_starts_with(base, "/v1/sessions/"@ + id + "/execute"@);
    lemma_concat_starts_with(base, "/v1/fleet"@);
    lemma_concat_starts_with(base, "/v1/fleet/"@ + id);
}

/// Reading, and destroying, a session address the same URL; only the method
/// differs. Likewise for a fleet.
pub proof fn law_read_and_destroy_share_a_resource(base: Seq<char>, id: Seq<char>, save_profile: bool)
    ensures
        get_session_spec(base, id).url == destroy_session_spec(base, id, save_profile).url,
        get_session_spec(base, id).method == Method::Get,
        destroy_session_spec(base, id, save_profile).method == Method::Delete,
        get_fleet_spec(base, id).url == destroy_fleet_spec(base, id).url,
        get_fleet_spec(base, id).method == Method::Get,
        destroy_fleet_spec(base, id).method == Method::Delete,
{
}

/// Reads (`GET`) never carry a body.
pub proof fn law_reads_carry_no_body(base: Seq<char>, id: Seq<char>)
    ensures
        get_session_spec(base, id).body is None,
        list_sessions_spec(base).body is None,
        get_fleet_spec(base, id).body is None,
{
}

/// Launching and listing sessions address the same collection URL, with
/// `POST` and `GET`.
pub proof fn law_sessions_collection(base: Seq<char>, params: Option<CreateSessionParams>)
    ensures
        create_session_spec(base, params).url == list_sessions_spec(base).url,
        create_session_spec(base, params).method == Method::Post,
        list_sessions_spec(base).method == Method::Get,
{
}

/// Launching a session without parameters sends what launching it with only
/// `stealth: "max"` sends.
pub proof fn law_default_session_is_max_stealth(base: Seq<char>, params: CreateSessionParams)
    requires
        params.stealth matches Some(s) && s@ == "max"@,
        params.proxy is None,
        params.profile_id is None,
        params.viewport is None,
    ensures
        create_session_spec(base, None) == create_session_spec(base, Some(params)),
{
    let b = params.body_spec();
    assert(b =~= seq![("stealth"@, text("max"@))]);
}

/// A session is destroyed with a body exactly when its profile is to be
/// saved.
pub proof fn law_destroy_body_only_to_save(base: Seq<char>, id: Seq<char>, save_profile: bool)
    ensures
        destroy_session_spec(base, id, save_profile).body is Some <==> save_profile,
{
}

/// Navigating without saying when it is done waits for `"load"`.
pub proof fn law_navigate_waits_for_load(base: Seq<char>, id: Seq<char>, url: Seq<char>)
    ensures
        navigate_spec(base, id, url, None) == navigate_spec(base, id, url, Some("load"@)),
{
    assert(navigate_spec(base, id, url, None).body.unwrap() =~= navigate_spec(
        base,
        id,
        url,
        Some("load"@),
    ).body.unwrap());
}

/// A status of 400 or more fails alike whether a value or nothing is
/// expected: with that status and the body that was read.
pub proof fn law_error_status_fails_alike(
    status: u16,
    text: Result<Seq<char>, reqwest::Error>,
    envelope_data: Option<serde_json::Value>,
)
    requires
        status >= 400,
    ensures
        empty_reply_spec(status, Some(text)) == Some(
            ErrorView::Api { status, body: text_or_empty(text) },
        ),
        reply_spec(status, text, envelope_data) == ReplyView::Failed(
            ErrorView::Api { status, body: text_or_empty(text) },
        ),
{
}

/// Below 400 a reply without a value always succeeds, and one with a value
/// fails only when its body could not be read: any body that was read is
/// handed on to be decoded.
pub proof fn law_success_status(
    status: u16,
    text: Result<Seq<char>, reqwest::Error>,
    envelope_data: Option<serde_json::Value>,
)
    requires
        status < 400,
    ensures
        empty_reply_spec(status, None) is None,
        reply_spec(status, text, envelope_data) is Failed <==> text is Err,
{
}

/// An empty body below 400 is decoded as a whole (and so fails to parse),
/// whatever envelope is offered; it is never answered as an API error.
pub proof fn law_empty_success_body_is_decoded(status: u16, envelope_data: Option<serde_json::Value>)
    requires
        status < 400,
    ensures
        reply_spec(status, Ok(Seq::empty()), envelope_data) == ReplyView::WholeBody(Seq::empty()),
{
}

/// The envelope's `data`, when present and not null, is what a successful
/// non-empty reply is decoded from; otherwise the whole body is.
pub proof fn law_envelope_first(status: u16, body: Seq<char>, envelope_data: Option<serde_json::Value>)
    requires
        status < 400,
        body.len() > 0,
    ensures
        reply_spec(status, Ok(body), envelope_data) == match envelope_data {
            Some(d) => if json_is_null(d) {
                ReplyView::WholeBody(body)
            } else {
                ReplyView::EnvelopeData(d)
            },
            None => ReplyView::WholeBody(body),
        },
{
}

/// Reading a reply depends on its status, its body text and the envelope
/// it parsed as alone: equal replies are read alike.
pub proof fn law_reply_reading_is_deterministic(
    status: u16,
    text1: Result<Seq<char>, reqwest::Error>,
    text2: Result<Seq<char>, reqwest::Error>,
    envelope1: Option<serde_json::Value>,
    envelope2: Option<serde_json::Value>,
)
    requires
        text1 == text2,
        envelope1 == envelope2,
    ensures
        reply_spec(status, text1, envelope1) == reply_spec(status, text2, envelope2),
        empty_reply_spec(status, Some(text1)) == empty_reply_spec(status, Some(text2)),
{
}

/// The API key does not shape any request: two clients with the same base
/// URL send the same method, URL and body for every call, whatever their
/// keys. (The key is carried by the `Authorization` header alone.)
pub proof fn law_requests_do_not_depend_on_key(
    c1: Client,
    c2: Client,
    id: Seq<char>,
    other: Seq<char>,
    opt: Option<Seq<char>>,
    flag: bool,
    max_length: Option<u32>,
    session_params: Option<CreateSessionParams>,
    fleet_params: CreateFleetParams,
)
    requires
        c1.base_url_view() == c2.base_url_view(),
    ensures
        create_session_spec(c1.base_url_view(), session_params) == create_session_spec(
            c2.base_url_view(),
            session_params,
        ),
        get_session_spec(c1.base_url_view(), id) == get_session_spec(c2.base_url_view(), id),
        list_sessions_spec(c1.base_url_view()) == list_sessions_spec(c2.base_url_view()),
        destroy_session_spec(c1.base_url_view(), id, flag) == destroy_session_spec(
            c2.base_url_view(),
            id,
            flag,
        ),
        navigate_spec(c1.base_url_view(), id, other, opt) == navigate_spec(
            c2.base_url_view(),
            id,
            other,
            opt,
        ),
        screenshot_spec(c1.base_url_view(), id, opt, flag) == screenshot_spec(
            c2.base_url_view(),
            id,
            opt,
            flag,
        ),
        click_spec(c1.base_url_view(), id, other) == click_spec(c2.base_url_view(), id, other),
        type_text_spec(c1.base_url_view(), id, other, other, flag) == type_text_spec(
            c2.base_url_view(),
            id,
            other,
            other,
            flag,
        ),
        extract_spec(c1.base_url_view(), id, opt, max_length) == extract_spec(
            c2.base_url_view(),
            id,
            opt,
            max_length,
        ),
        execute_spec(c1.base_url_view(), id, other) == execute_spec(c2.base_url_view(), id, other),
        create_fleet_spec(c1.base_url_view(), fleet_params) == create_fleet_spec(
            c2.base_url_view(),
            fleet_params,
        ),
        get_fleet_spec(c1.base_url_view(), id) == get_fleet_spec(c2.base_url_view(), id),
        destroy_fleet_spec(c1.base_url_view(), id) == destroy_fleet_spec(c2.base_url_view(), id),
{
}

/// Appending a member that is present at most once, under a name that no
/// member before it has, keeps the names distinct.
proof fn lemma_append_optional<V>(a: Seq<(Seq<char>, V)>, name: Seq<char>, v: Option<V>)
    requires
        distinct_names(a),
        forall|i: int| 0 <= i < a.len() ==> #[trigger] a[i].0 != name,
    ensures
        distinct_names(a + optional_member(name, v)),
        forall|i: int|
            0 <= i < (a + optional_member(name, v)).len() ==> #[trigger] (a + optional_member(
                name,
                v,
            ))[i].0 == name || (i < a.len() && (a + optional_member(name, v))[i].0 == a[i].0),
{
    let c = a + optional_member(name, v);
    assert forall|i: int, j: int| 0 <= i < j < c.len() implies #[trigger] c[i].0 != #[trigger] c[j].0 by {
        if j < a.len() {
            assert(c[i] == a[i] && c[j] == a[j]);
        } else {
            assert(c[i] == a[i]);
        }
    }
}

/// The body of a launched session never names a member twice.
pub proof fn law_session_body_names_distinct(params: CreateSessionParams)
    ensures
        distinct_names(params.body_spec()),
{
    reveal_strlit("stealth");
    reveal_strlit("proxy");
    reveal_strlit("profile_id");
    reveal_strlit("viewport");
    let e = Seq::<(Seq<char>, MemberView)>::empty();
    lemma_append_optional(e, "stealth"@, optional_text(params.stealth));
    let a = e + optional_member("stealth"@, optional_text(params.stealth));
    assert forall|i: int| 0 <= i < a.len() implies #[trigger] a[i].0 != "proxy"@ by {
        assert(a[i].0.len() == 7);
    }
    lemma_append_optional(a, "proxy"@, optional_proxy(params.proxy));
    let b = a + optional_member("proxy"@, optional_proxy(params.proxy));
    assert forall|i: int| 0 <= i < b.len() implies #[trigger] b[i].0 != "profile_id"@ by {
        assert(b[i].0.len() == 5 || b[i].0 == a[i].0);
    }
    lemma_append_optional(b, "profile_id"@, optional_text(params.profile_id));
    let c = b + optional_member("profile_id"@, optional_text(params.profile_id));
    assert forall|i: int| 0 <= i < c.len() implies #[trigger] c[i].0 != "viewport"@ by {
        assert(c[i].0.len() == 10 || c[i].0 == b[i].0);
        if c[i].0 != "profile_id"@ {
            assert(b[i].0.len() == 5 || b[i].0 == a[i].0);
        }
    }
    lemma_append_optional(c, "viewport"@, optional_viewport(params.viewport));
}

/// The body of a launched fleet never names a member twice.
pub proof fn law_fleet_body_names_distinct(params: CreateFleetParams)
    ensures
        distinct_names(params.body_spec()),
{
    reveal_strlit("count");
    reveal_strlit("stealth");
    reveal_strlit("proxy");
    let a = seq![("count"@, number(params.count as u64))];
    assert("count"@[0] != "proxy"@[0]);
    lemma_append_optional(a, "stealth"@, optional_text(params.stealth));
    let b = a + optional_member("stealth"@, optional_text(params.stealth));
    lemma_append_optional(b, "proxy"@, optional_proxy(params.proxy));
}

} // verus!
