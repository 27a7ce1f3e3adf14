use vstd::prelude::*;
use reqwest::header::{HeaderValue, InvalidHeaderValue};

verus! {

#[verifier::external_type_specification]
#[verifier::external_body]
pub struct ExHeaderValue(HeaderValue);

#[verifier::external_type_specification]
#[verifier::external_body]
pub struct ExInvalidHeaderValue(InvalidHeaderValue);

/// `Clone` of `reqwest::header::HeaderValue` (derived in the `http` crate):
/// the copy holds the same bytes and the same sensitivity mark.
pub assume_specification[ <HeaderValue as Clone>::clone ](v: &HeaderValue) -> (r: HeaderValue)
    ensures
        r == *v,
;

/// Where the API is served unless a client names another base URL.
pub const DEFAULT_BASE_URL: &'static str = "https://api.meshbrow.dev";

/// The `User-Agent` every request carries.
pub const USER_AGENT_VALUE: &'static str = "meshbrow-rust/0.1.0";

/// The `Content-Type` every request carries.
pub const CONTENT_TYPE_VALUE: &'static str = "application/json";

/// How long a request may take before it is abandoned, in seconds.
pub const REQUEST_TIMEOUT_SECS: u64 = 30;

/// A character that may stand in an HTTP header value: a tab, or any
/// character from the space on except DEL (characters past ASCII are
/// encoded as bytes of 128 and more, which are all accepted).
pub open spec fn header_char_ok(c: char) -> bool {
    c == '\t' || (c as u32 >= 32 && c as u32 != 127)
}

/// Every character of `s` may stand in an HTTP header value.
pub open spec fn header_text_ok(s: Seq<char>) -> bool {
    forall|i: int| 0 <= i < s.len() ==> #[trigger] header_char_ok(s[i])
}

/// The `Authorization` header value that carries an API key.
pub open spec fn bearer(api_key: Seq<char>) -> Seq<char> {
    "Bearer "@ + api_key
}

/// The header value that `HeaderValue::from_str` makes of a text: it holds
/// the text's bytes, not marked sensitive.
pub uninterp spec fn header_value_of(s: Seq<char>) -> HeaderValue;

/// `reqwest::header::HeaderValue::from_str` (the `http` crate's): it
/// succeeds exactly when every byte of the string is a tab, or at least 32
/// and not 127 (stated here per character, as `header_text_ok`), and what it
/// makes depends on the text alone (named `header_value_of`).
#[verifier::external_body]
fn header_value_from_str(s: &str) -> (r: Result<HeaderValue, InvalidHeaderValue>)
    ensures
        r is Ok <==> header_text_ok(s@),
        r matches Ok(v) ==> v == header_value_of(s@),
{
    HeaderValue::from_str(s)
}

/// An API key can be carried exactly when its `Authorization` value can be:
/// the `Bearer ` prefix never makes the header invalid.
pub proof fn law_bearer_valid_iff_key_valid(api_key: Seq<char>)
    ensures
        header_text_ok(bearer(api_key)) <==> header_text_ok(api_key),
{
    reveal_strlit("Bearer ");
    let b = bearer(api_key);
    assert("Bearer "@.len() == 7);
    if header_text_ok(api_key) {
        assert forall|i: int| 0 <= i < b.len() implies #[trigger] header_char_ok(b[i]) by {
            if i >= 7 {
                assert(b[i] == api_key[i - 7]);
            }
        }
    }
    if header_text_ok(b) {
        assert forall|i: int| 0 <= i < api_key.len() implies #[trigger] header_char_ok(api_key[i]) by {
            assert(b[i + 7] == api_key[i]);
            assert(header_char_ok(b[i + 7]));
        }
    }
}

/// The constant header values may stand in a header.
proof fn lemma_constant_headers_ok()
    ensures
        header_text_ok(CONTENT_TYPE_VALUE@),
        header_text_ok(USER_AGENT_VALUE@),
{
    reveal_strlit("application/json");
    reveal_strlit("meshbrow-rust/0.1.0");
}

/// The configuration of a Meshbrow API client: where requests go and the
/// credentials they carry.
#[derive(Debug)]
pub struct Client {
    base_url: String,
    authorization: String,
    authorization_value: HeaderValue,
}

impl Clone for Client {
    /// A copy with the same base URL and the same `Authorization` header.
    fn clone(&self) -> (r: Client)
        ensures
            r.base_url_view() == self.base_url_view(),
            r.authorization_view() == self.authorization_view(),
    {
        proof {
            use_type_invariant(self);
        }
        Client {
            base_url: self.base_url.clone(),
            authorization: self.authorization.clone(),
            authorization_value: self.authorization_value.clone(),
        }
    }
}

impl Client {
    /// The header value is the one made of the `Authorization` text.
    #[verifier::type_invariant]
    spec fn header_matches_text(&self) -> bool {
        self.authorization_value == header_value_of(self.authorization@)
    }

    /// The base URL that every request path is appended to.
    pub closed spec fn base_url_view(&self) -> Seq<char> {
        self.base_url@
    }

    /// The text of the `Authorization` header.
    pub closed spec fn authorization_view(&self) -> Seq<char> {
        self.authorization@
    }

    /// A client for the given API key and base URL; `None` when the key
    /// cannot be carried in an HTTP header.
    pub fn try_with_base_url(api_key: &str, base_url: &str) -> (r: Option<Client>)
        ensures
            r is Some <==> header_text_ok(api_key@),
            r matches Some(c) ==> c.base_url_view() == base_url@ && c.authorization_view()
                == bearer(api_key@),
    {
        proof {
            law_bearer_valid_iff_key_valid(api_key@);
        }
        let mut authorization = String::from_str("Bearer ");
        authorization.append(api_key);
        match header_value_from_str(authorization.as_str()) {
            Ok(v) => Some(
                Client {
                    base_url: String::from_str(base_url),
                    authorization,
                    authorization_value: v,
                },
            ),
            Err(_) => None,
        }
    }

    /// A client for the given API key and base URL.
    pub fn with_base_url(api_key: &str, base_url: &str) -> (r: Client)
        requires
            header_text_ok(api_key@),
        ensures
            r.base_url_view() == base_url@,
            r.authorization_view() == bearer(api_key@),
    {
        match Client::try_with_base_url(api_key, base_url) {
            Some(c) => c,
            None => unreached(),
        }
    }

    /// A client for the given API key, talking to the public API.
    pub fn new(api_key: &str) -> (r: Client)
        requires
            header_text_ok(api_key@),
        ensures
            r.base_url_view() == DEFAULT_BASE_URL@,
            r.authorization_view() == bearer(api_key@),
    {
        Client::with_base_url(api_key, DEFAULT_BASE_URL)
    }

    /// The base URL.
    pub fn base_url(&self) -> (r: &str)
        ensures
            r@ == self.base_url_view(),
    {
        self.base_url.as_str()
    }

    /// The `Authorization` header, as the HTTP layer carries it.
    pub fn authorization_header(&self) -> (r: &HeaderValue)
        ensures
            *r == header_value_of(self.authorization_view()),
    {
        proof {
            use_type_invariant(self);
        }
        &self.authorization_value
    }

    /// The headers sent with every request, as (name, value) pairs.
    pub fn default_headers(&self) -> (r: Vec<(String, String)>)
        ensures
            r@.len() == 3,
            r@[0].0@ == "Authorization"@ && r@[0].1@ == self.authorization_view(),
            r@[1].0@ == "Content-Type"@ && r@[1].1@ == CONTENT_TYPE_VALUE@,
            r@[2].0@ == "User-Agent"@ && r@[2].1@ == USER_AGENT_VALUE@,
    {
        let mut r: Vec<(String, String)> = Vec::new();
        r.push((String::from_str("Authorization"), self.authorization.clone()));
        r.push((String::from_str("Content-Type"), String::from_str(CONTENT_TYPE_VALUE)));
        r.push((String::from_str("User-Agent"), String::from_str(USER_AGENT_VALUE)));
        r
    }

    /// The headers sent with every request, as the HTTP layer carries them:
    /// the names of `default_headers`, each with the header value made of its
    /// text.
    pub fn header_values(&self) -> (r: Vec<(String, HeaderValue)>)
        ensures
            r@.len() == 3,
            r@[0].0@ == "Authorization"@ && r@[0].1 == header_value_of(self.authorization_view()),
            r@[1].0@ == "Content-Type"@ && r@[1].1 == header_value_of(CONTENT_TYPE_VALUE@),
            r@[2].0@ == "User-Agent"@ && r@[2].1 == header_value_of(USER_AGENT_VALUE@),
    {
        proof {
            use_type_invariant(self);
            lemma_constant_headers_ok();
        }
        let content_type = match header_value_from_str(CONTENT_TYPE_VALUE) {
            Ok(v) => v,
            Err(_) => unreached(),
        };
        let user_agent = match header_value_from_str(USER_AGENT_VALUE) {
            Ok(v) => v,
            Err(_) => unreached(),
        };
        let mut r: Vec<(String, HeaderValue)> = Vec::new();
        r.push((String::from_str("Authorization"), self.authorization_value.clone()));
        r.push((String::from_str("Content-Type"), content_type));
        r.push((String::from_str("User-Agent"), user_agent));
        r
    }

    /// The full URL of an API path.
    pub fn url(&self, path: &str) -> (r: String)
        ensures
            r@ == self.base_url_view() + path@,
    {
        let mut r = self.base_url.clone();
        r.append(path);
        r
    }
}

} // verus!
