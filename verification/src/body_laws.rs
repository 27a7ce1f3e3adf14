use vstd::prelude::*;
use crate::json::{text, number, boolean, MemberView, ScalarView};
use crate::request::{
    Method, create_session_spec, destroy_session_spec, navigate_spec, screenshot_spec,
    click_spec, type_text_spec, extract_spec, execute_spec, create_fleet_spec,
};
use crate::types::{CreateFleetParams, CreateSessionParams, ProxyParams, Viewport, optional_member};

verus! {

/// The object holds the member `name: value`.
pub open spec fn has_member<V>(members: Seq<(Seq<char>, V)>, name: Seq<char>, value: V) -> bool {
    exists|i: int| 0 <= i < members.len() && #[trigger] members[i] == (name, value)
}

/// The object holds some member called `name`.
pub open spec fn has_name<V>(members: Seq<(Seq<char>, V)>, name: Seq<char>) -> bool {
    exists|i: int| 0 <= i < members.len() && (#[trigger] members[i]).0 == name
}

proof fn lemma_member_left<V>(a: Seq<(Seq<char>, V)>, b: Seq<(Seq<char>, V)>, name: Seq<char>, value: V)
    requires
        has_member(a, name, value),
    ensures
        has_member(a + b, name, value),
{
    let i = choose|i: int| 0 <= i < a.len() && #[trigger] a[i] == (name, value);
    assert((a + b)[i] == a[i]);
}

proof fn lemma_member_right<V>(a: Seq<(Seq<char>, V)>, b: Seq<(Seq<char>, V)>, name: Seq<char>, value: V)
    requires
        has_member(b, name, value),
    ensures
        has_member(a + b, name, value),
{
    let i = choose|i: int| 0 <= i < b.len() && #[trigger] b[i] == (name, value);
    assert((a + b)[a.len() + i] == b[i]);
}

proof fn lemma_no_name_concat<V>(a: Seq<(Seq<char>, V)>, b: Seq<(Seq<char>, V)>, name: Seq<char>)
    requires
        !has_name(a, name),
        !has_name(b, name),
    ensures
        !has_name(a + b, name),
{
    if has_name(a + b, name) {
        let i = choose|i: int| 0 <= i < (a + b).len() && (#[trigger] (a + b)[i]).0 == name;
        if i < a.len() {
            assert((a + b)[i] == a[i]);
        } else {
            assert((a + b)[i] == b[i - a.len()]);
        }
    }
}

/// A present optional member is there with its value.
proof fn lemma_optional_present<V>(name: Seq<char>, value: V)
    ensures
        has_member(optional_member(name, Some(value)), name, value),
{
    assert(optional_member(name, Some(value))[0] == (name, value));
}

/// An optional member holds no other name, and nothing when absent.
proof fn lemma_optional_names<V>(name: Seq<char>, value: Option<V>, other: Seq<char>)
    requires
        name != other || value is None,
    ensures
        !has_name(optional_member(name, value), other),
{
}

proof fn lemma_single<V>(name: Seq<char>, value: V)
    ensures
        has_member(seq![(name, value)], name, value),
{
    assert(seq![(name, value)][0] == (name, value));
}

/// A proxy's JSON object holds its kind under `type`, and its country under
/// `country` exactly when one is given.
pub proof fn law_proxy_object(p: ProxyParams)
    ensures
        p.json_spec() matches MemberView::Object(f) && {
            &&& has_member(f, "type"@, ScalarView::Text(p.proxy_type@))
            &&& (p.country matches Some(c) ==> has_member(f, "country"@, ScalarView::Text(c@)))
            &&& (p.country is None ==> !has_name(f, "country"@))
        },
{
    reveal_strlit("type");
    reveal_strlit("country");
    let c = match p.country {
        Some(c) => Some(ScalarView::Text(c@)),
        None => None,
    };
    let a = seq![("type"@, ScalarView::Text(p.proxy_type@))];
    lemma_single("type"@, ScalarView::Text(p.proxy_type@));
    lemma_member_left(a, optional_member("country"@, c), "type"@, ScalarView::Text(p.proxy_type@));
    if let Some(cv) = p.country {
        lemma_optional_present("country"@, ScalarView::Text(cv@));
        lemma_member_right(a, optional_member("country"@, c), "country"@, ScalarView::Text(cv@));
    } else {
        assert("type"@.len() != "country"@.len());
        assert(a[0].0 != "country"@);
        lemma_optional_names("country"@, c, "country"@);
        lemma_no_name_concat(a, optional_member("country"@, c), "country"@);
    }
}

/// A viewport's JSON object holds its width and its height.
pub proof fn law_viewport_object(v: Viewport)
    ensures
        v.json_spec() matches MemberView::Object(f) && {
            &&& has_member(f, "width"@, ScalarView::Number(v.width as u64))
            &&& has_member(f, "height"@, ScalarView::Number(v.height as u64))
        },
{
    let f = seq![
        ("width"@, ScalarView::Number(v.width as u64)),
        ("height"@, ScalarView::Number(v.height as u64)),
    ];
    assert(f[0] == ("width"@, ScalarView::Number(v.width as u64)));
    assert(f[1] == ("height"@, ScalarView::Number(v.height as u64)));
}

/// A member of one part of a three-part object is a member of the whole.
proof fn lemma_member_in3<V>(
    a: Seq<(Seq<char>, V)>,
    b: Seq<(Seq<char>, V)>,
    c: Seq<(Seq<char>, V)>,
    name: Seq<char>,
    value: V,
)
    requires
        has_member(a, name, value) || has_member(b, name, value) || has_member(c, name, value),
    ensures
        has_member(a + b + c, name, value),
{
    if has_member(a, name, value) {
        lemma_member_left(a, b, name, value);
        lemma_member_left(a + b, c, name, value);
    } else if has_member(b, name, value) {
        lemma_member_right(a, b, name, value);
        lemma_member_left(a + b, c, name, value);
    } else {
        lemma_member_right(a + b, c, name, value);
    }
}

/// A member of one part of a four-part object is a member of the whole.
proof fn lemma_member_in4<V>(
    a: Seq<(Seq<char>, V)>,
    b: Seq<(Seq<char>, V)>,
    c: Seq<(Seq<char>, V)>,
    d: Seq<(Seq<char>, V)>,
    name: Seq<char>,
    value: V,
)
    requires
        has_member(a, name, value) || has_member(b, name, value) || has_member(c, name, value)
            || has_member(d, name, value),
    ensures
        has_member(a + b + c + d, name, value),
{
    if has_member(d, name, value) {
        lemma_member_right(a + b + c, d, name, value);
    } else {
        lemma_member_in3(a, b, c, name, value);
        lemma_member_left(a + b + c, d, name, value);
    }
}

/// A name that no part holds is not in the whole.
proof fn lemma_no_name4<V>(
    a: Seq<(Seq<char>, V)>,
    b: Seq<(Seq<char>, V)>,
    c: Seq<(Seq<char>, V)>,
    d: Seq<(Seq<char>, V)>,
    name: Seq<char>,
)
    requires
        !has_name(a, name),
        !has_name(b, name),
        !has_name(c, name),
        !has_name(d, name),
    ensures
        !has_name(a + b + c + d, name),
{
    lemma_no_name_concat(a, b, name);
    lemma_no_name_concat(a + b, c, name);
    lemma_no_name_concat(a + b + c, d, name);
}

/// The text member of an optional string.
pub open spec fn text_value(s: Option<String>) -> Option<MemberView> {
    match s {
        Some(t) => Some(text(t@)),
        None => None,
    }
}

/// Launching a session sends every parameter that is given, and none that is
/// not: `stealth` and `profile_id` with their text, `proxy` and `viewport`
/// with their JSON objects, each whatever the other parameters are.
pub proof fn law_session_body_carries_given_fields(base: Seq<char>, p: CreateSessionParams)
    ensures
        create_session_spec(base, Some(p)).method == Method::Post,
        create_session_spec(base, Some(p)).url == base + "/v1/sessions"@,
        create_session_spec(base, Some(p)).body matches Some(b) && {
            &&& (p.stealth matches Some(s) ==> has_member(b, "stealth"@, text(s@)))
            &&& (p.stealth is None ==> !has_name(b, "stealth"@))
            &&& (p.proxy matches Some(pr) ==> has_member(b, "proxy"@, pr.json_spec()))
            &&& (p.proxy is None ==> !has_name(b, "proxy"@))
            &&& (p.profile_id matches Some(s) ==> has_member(b, "profile_id"@, text(s@)))
            &&& (p.profile_id is None ==> !has_name(b, "profile_id"@))
            &&& (p.viewport matches Some(v) ==> has_member(b, "viewport"@, v.json_spec()))
            &&& (p.viewport is None ==> !has_name(b, "viewport"@))
        },
{
    reveal_strlit("stealth");
    reveal_strlit("proxy");
    reveal_strlit("profile_id");
    reveal_strlit("viewport");
    assert("stealth"@.len() == 7 && "proxy"@.len() == 5 && "profile_id"@.len() == 10
        && "viewport"@.len() == 8);
    let sv = text_value(p.stealth);
    let pv: Option<MemberView> = match p.proxy {
        Some(pr) => Some(pr.json_spec()),
        None => None,
    };
    let iv = text_value(p.profile_id);
    let vv: Option<MemberView> = match p.viewport {
        Some(v) => Some(v.json_spec()),
        None => None,
    };
    let a = optional_member("stealth"@, sv);
    let b = optional_member("proxy"@, pv);
    let c = optional_member("profile_id"@, iv);
    let d = optional_member("viewport"@, vv);
    let body = create_session_spec(base, Some(p)).body.unwrap();
    assert(body == a + b + c + d);
    match p.stealth {
        Some(s) => {
            lemma_optional_present("stealth"@, text(s@));
            lemma_member_in4(a, b, c, d, "stealth"@, text(s@));
        },
        None => {
            lemma_optional_names("stealth"@, sv, "stealth"@);
            lemma_optional_names("proxy"@, pv, "stealth"@);
            lemma_optional_names("profile_id"@, iv, "stealth"@);
            lemma_optional_names("viewport"@, vv, "stealth"@);
            lemma_no_name4(a, b, c, d, "stealth"@);
        },
    }
    match p.proxy {
        Some(pr) => {
            lemma_optional_present("proxy"@, pr.json_spec());
            lemma_member_in4(a, b, c, d, "proxy"@, pr.json_spec());
        },
        None => {
            lemma_optional_names("stealth"@, sv, "proxy"@);
            lemma_optional_names("proxy"@, pv, "proxy"@);
            lemma_optional_names("profile_id"@, iv, "proxy"@);
            lemma_optional_names("viewport"@, vv, "proxy"@);
            lemma_no_name4(a, b, c, d, "proxy"@);
        },
    }
    match p.profile_id {
        Some(s) => {
            lemma_optional_present("profile_id"@, text(s@));
            lemma_member_in4(a, b, c, d, "profile_id"@, text(s@));
        },
        None => {
            lemma_optional_names("stealth"@, sv, "profile_id"@);
            lemma_optional_names("proxy"@, pv, "profile_id"@);
            lemma_optional_names("profile_id"@, iv, "profile_id"@);
            lemma_optional_names("viewport"@, vv, "profile_id"@);
            lemma_no_name4(a, b, c, d, "profile_id"@);
        },
    }
    match p.viewport {
        Some(v) => {
            lemma_optional_present("viewport"@, v.json_spec());
            lemma_member_in4(a, b, c, d, "viewport"@, v.json_spec());
        },
        None => {
            lemma_optional_names("stealth"@, sv, "viewport"@);
            lemma_optional_names("proxy"@, pv, "viewport"@);
            lemma_optional_names("profile_id"@, iv, "viewport"@);
            lemma_optional_names("viewport"@, vv, "viewport"@);
            lemma_no_name4(a, b, c, d, "viewport"@);
        },
    }
}

/// Launching a fleet sends its size under `count`, and `stealth` and
/// `proxy` exactly when they are given, each whatever the other is.
pub proof fn law_fleet_body_carries_given_fields(base: Seq<char>, p: CreateFleetParams)
    ensures
        create_fleet_spec(base, p).method == Method::Post,
        create_fleet_spec(base, p).url == base + "/v1/fleet"@,
        create_fleet_spec(base, p).body matches Some(b) && {
            &&& has_member(b, "count"@, number(p.count as u64))
            &&& (p.stealth matches Some(s) ==> has_member(b, "stealth"@, text(s@)))
            &&& (p.stealth is None ==> !has_name(b, "stealth"@))
            &&& (p.proxy matches Some(pr) ==> has_member(b, "proxy"@, pr.json_spec()))
            &&& (p.proxy is None ==> !has_name(b, "proxy"@))
        },
{
    reveal_strlit("count");
    reveal_strlit("stealth");
    reveal_strlit("proxy");
    assert("count"@[0] != "proxy"@[0] && "count"@.len() != "stealth"@.len() && "proxy"@.len()
        != "stealth"@.len());
    let sv = text_value(p.stealth);
    let pv: Option<MemberView> = match p.proxy {
        Some(pr) => Some(pr.json_spec()),
        None => None,
    };
    let a = seq![("count"@, number(p.count as u64))];
    let b = optional_member("stealth"@, sv);
    let c = optional_member("proxy"@, pv);
    let body = create_fleet_spec(base, p).body.unwrap();
    assert(body == a + b + c);
    lemma_single("count"@, number(p.count as u64));
    lemma_member_in3(a, b, c, "count"@, number(p.count as u64));
    match p.stealth {
        Some(s) => {
            lemma_optional_present("stealth"@, text(s@));
            lemma_member_in3(a, b, c, "stealth"@, text(s@));
        },
        None => {
            assert(a[0].0 != "stealth"@);
            lemma_optional_names("stealth"@, sv, "stealth"@);
            lemma_optional_names("proxy"@, pv, "stealth"@);
            lemma_no_name_concat(a, b, "stealth"@);
            lemma_no_name_concat(a + b, c, "stealth"@);
        },
    }
    match p.proxy {
        Some(pr) => {
            lemma_optional_present("proxy"@, pr.json_spec());
            lemma_member_in3(a, b, c, "proxy"@, pr.json_spec());
        },
        None => {
            assert(a[0].0 != "proxy"@);
            lemma_optional_names("stealth"@, sv, "proxy"@);
            lemma_optional_names("proxy"@, pv, "proxy"@);
            lemma_no_name_concat(a, b, "proxy"@);
            lemma_no_name_concat(a + b, c, "proxy"@);
        },
    }
}

/// Extracting text sends `selector` exactly when one is given and
/// `max_length` exactly when one is given, each whatever the other is.
pub proof fn law_extract_body_carries_given_fields(
    base: Seq<char>,
    id: Seq<char>,
    selector: Option<Seq<char>>,
    max_length: Option<u32>,
)
    ensures
        extract_spec(base, id, selector, max_length).method == Method::Post,
        extract_spec(base, id, selector, max_length).url == base + ("/v1/sessions/"@ + id
            + "/extract"@),
        extract_spec(base, id, selector, max_length).body matches Some(b) && {
            &&& (selector matches Some(s) ==> has_member(b, "selector"@, text(s)))
            &&& (selector is None ==> !has_name(b, "selector"@))
            &&& (max_length matches Some(m) ==> has_member(b, "max_length"@, number(m as u64)))
            &&& (max_length is None ==> !has_name(b, "max_length"@))
        },
{
    reveal_strlit("selector");
    reveal_strlit("max_length");
    assert("selector"@.len() != "max_length"@.len());
    let sv: Option<MemberView> = match selector {
        Some(s) => Some(text(s)),
        None => None,
    };
    let mv: Option<MemberView> = match max_length {
        Some(m) => Some(number(m as u64)),
        None => None,
    };
    let a = optional_member("selector"@, sv);
    let b = optional_member("max_length"@, mv);
    assert(extract_spec(base, id, selector, max_length).body.unwrap() == a + b);
    match selector {
        Some(s) => {
            lemma_optional_present("selector"@, text(s));
            lemma_member_left(a, b, "selector"@, text(s));
        },
        None => {
            lemma_optional_names("selector"@, sv, "selector"@);
            lemma_optional_names("max_length"@, mv, "selector"@);
            lemma_no_name_concat(a, b, "selector"@);
        },
    }
    match max_length {
        Some(m) => {
            lemma_optional_present("max_length"@, number(m as u64));
            lemma_member_right(a, b, "max_length"@, number(m as u64));
        },
        None => {
            lemma_optional_names("selector"@, sv, "max_length"@);
            lemma_optional_names("max_length"@, mv, "max_length"@);
            lemma_no_name_concat(a, b, "max_length"@);
        },
    }
}

/// A screenshot sends `full_page` as asked, and `selector` exactly when one
/// is given, whatever `full_page` is.
pub proof fn law_screenshot_body_carries_given_fields(
    base: Seq<char>,
    id: Seq<char>,
    selector: Option<Seq<char>>,
    full_page: bool,
)
    ensures
        screenshot_spec(base, id, selector, full_page).method == Method::Post,
        screenshot_spec(base, id, selector, full_page).url == base + ("/v1/sessions/"@ + id
            + "/screenshot"@),
        screenshot_spec(base, id, selector, full_page).body matches Some(b) && {
            &&& has_member(b, "full_page"@, boolean(full_page))
            &&& (selector matches Some(s) ==> has_member(b, "selector"@, text(s)))
            &&& (selector is None ==> !has_name(b, "selector"@))
        },
{
    reveal_strlit("selector");
    reveal_strlit("full_page");
    assert("selector"@.len() != "full_page"@.len());
    let sv: Option<MemberView> = match selector {
        Some(s) => Some(text(s)),
        None => None,
    };
    let a = seq![("full_page"@, boolean(full_page))];
    let b = optional_member("selector"@, sv);
    assert(screenshot_spec(base, id, selector, full_page).body.unwrap() == a + b);
    lemma_single("full_page"@, boolean(full_page));
    lemma_member_left(a, b, "full_page"@, boolean(full_page));
    match selector {
        Some(s) => {
            lemma_optional_present("selector"@, text(s));
            lemma_member_right(a, b, "selector"@, text(s));
        },
        None => {
            assert(a[0].0 != "selector"@);
            lemma_optional_names("selector"@, sv, "selector"@);
            lemma_no_name_concat(a, b, "selector"@);
        },
    }
}

/// Typing sends the selector, the text and the `clear` flag as given.
pub proof fn law_type_text_body_carries_arguments(
    base: Seq<char>,
    id: Seq<char>,
    selector: Seq<char>,
    typed: Seq<char>,
    clear: bool,
)
    ensures
        type_text_spec(base, id, selector, typed, clear).method == Method::Post,
        type_text_spec(base, id, selector, typed, clear).url == base + ("/v1/sessions/"@ + id
            + "/type"@),
        type_text_spec(base, id, selector, typed, clear).body matches Some(b) && {
            &&& b.len() == 3
            &&& has_member(b, "selector"@, text(selector))
            &&& has_member(b, "text"@, text(typed))
            &&& has_member(b, "clear"@, boolean(clear))
        },
{
    let b = type_text_spec(base, id, selector, typed, clear).body.unwrap();
    assert(b[0] == ("selector"@, text(selector)));
    assert(b[1] == ("text"@, text(typed)));
    assert(b[2] == ("clear"@, boolean(clear)));
}

/// Navigating sends the URL, and the waiting condition given, `"load"` when
/// none is.
pub proof fn law_navigate_body_carries_arguments(
    base: Seq<char>,
    id: Seq<char>,
    url: Seq<char>,
    wait_until: Option<Seq<char>>,
)
    ensures
        navigate_spec(base, id, url, wait_until).method == Method::Post,
        navigate_spec(base, id, url, wait_until).url == base + ("/v1/sessions/"@ + id
            + "/navigate"@),
        navigate_spec(base, id, url, wait_until).body matches Some(b) && {
            &&& has_member(b, "url"@, text(url))
            &&& (wait_until matches Some(w) ==> has_member(b, "wait_until"@, text(w)))
            &&& (wait_until is None ==> has_member(b, "wait_until"@, text("load"@)))
        },
{
    let b = navigate_spec(base, id, url, wait_until).body.unwrap();
    assert(b[0] == ("url"@, text(url)));
    assert(b[1].0 == "wait_until"@);
}

/// Clicking sends the selector; running a script sends the script.
pub proof fn law_click_and_execute_carry_arguments(base: Seq<char>, id: Seq<char>, arg: Seq<char>)
    ensures
        click_spec(base, id, arg).method == Method::Post,
        click_spec(base, id, arg).url == base + ("/v1/sessions/"@ + id + "/click"@),
        click_spec(base, id, arg).body matches Some(b) && has_member(b, "selector"@, text(arg)),
        execute_spec(base, id, arg).method == Method::Post,
        execute_spec(base, id, arg).url == base + ("/v1/sessions/"@ + id + "/execute"@),
        execute_spec(base, id, arg).body matches Some(b) && has_member(b, "script"@, text(arg)),
{
    lemma_single("selector"@, text(arg));
    lemma_single("script"@, text(arg));
}

/// Destroying a session asks to save its profile exactly when told to.
pub proof fn law_destroy_saves_profile_when_asked(base: Seq<char>, id: Seq<char>, save_profile: bool)
    ensures
        destroy_session_spec(base, id, save_profile).method == Method::Delete,
        destroy_session_spec(base, id, save_profile).url == base + ("/v1/sessions/"@ + id),
        save_profile ==> (destroy_session_spec(base, id, save_profile).body matches Some(b)
            && has_member(b, "save_profile"@, boolean(true))),
        !save_profile ==> destroy_session_spec(base, id, save_profile).body is None,
{
    lemma_single("save_profile"@, boolean(true));
}

} // verus!
