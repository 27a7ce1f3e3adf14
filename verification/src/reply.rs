use vstd::prelude::*;
use crate::error::{Error, ErrorView};

verus! {

/// What a successful reply is to be decoded from.
#[derive(Debug)]
pub enum Payload {
    /// The non-null `data` member of the `{"data": ...}` envelope.
    EnvelopeData(serde_json::Value),
    /// The whole body text.
    WholeBody(String),
}

/// The mathematical value of what reading a reply gives.
pub enum ReplyView {
    Failed(ErrorView),
    EnvelopeData(serde_json::Value),
    WholeBody(Seq<char>),
}

/// What reading the body of a reply gave, by its characters.
pub open spec fn text_view(t: Result<String, reqwest::Error>) -> Result<Seq<char>, reqwest::Error> {
    match t {
        Ok(s) => Ok(s@),
        Err(e) => Err(e),
    }
}

/// The body text, or nothing when it could not be read.
pub open spec fn text_or_empty(t: Result<Seq<char>, reqwest::Error>) -> Seq<char> {
    match t {
        Ok(s) => s,
        Err(_) => Seq::empty(),
    }
}

/// Whether a JSON value is `null`: what `serde_json::Value::is_null` answers.
pub uninterp spec fn json_is_null(v: serde_json::Value) -> bool;

/// `serde_json::Value::is_null`: whether the value is JSON `null`. The
/// answer depends on the value alone (named `json_is_null`).
#[verifier::external_body]
fn is_null(v: &serde_json::Value) -> (r: bool)
    ensures
        r == json_is_null(*v),
{
    v.is_null()
}

/// How a reply that carries a value is read, from its status, its body text
/// (or the failure to read it) and the `data` member of the `{"data": ...}`
/// envelope, when the text parsed as one. A status of 400 or more fails with
/// that status and whatever body could be read. Otherwise a body that could
/// not be read is a transport failure; an empty body, or one whose envelope
/// is missing or has a null `data`, is decoded as a whole (an empty body then
/// fails to decode); and any other body is decoded from the envelope's `data`.
pub open spec fn reply_spec(
    status: u16,
    text: Result<Seq<char>, reqwest::Error>,
    envelope_data: Option<serde_json::Value>,
) -> ReplyView {
    if status >= 400 {
        ReplyView::Failed(ErrorView::Api { status, body: text_or_empty(text) })
    } else {
        match text {
            Err(e) => ReplyView::Failed(ErrorView::Http(e)),
            Ok(t) => if t.len() == 0 {
                ReplyView::WholeBody(t)
            } else {
                match envelope_data {
                    Some(d) => if json_is_null(d) {
                        ReplyView::WholeBody(t)
                    } else {
                        ReplyView::EnvelopeData(d)
                    },
                    None => ReplyView::WholeBody(t),
                }
            },
        }
    }
}

/// The value of a reply reading.
pub open spec fn reply_view(r: Result<Payload, Error>) -> ReplyView {
    match r {
        Err(e) => ReplyView::Failed(e@),
        Ok(Payload::EnvelopeData(d)) => ReplyView::EnvelopeData(d),
        Ok(Payload::WholeBody(t)) => ReplyView::WholeBody(t@),
    }
}

/// How a reply that carries no value is read: a status of 400 or more fails
/// with that status and the body read on that path (nothing when it could not
/// be read); any other status succeeds, whatever the body.
pub open spec fn empty_reply_spec(
    status: u16,
    error_text: Option<Result<Seq<char>, reqwest::Error>>,
) -> Option<ErrorView> {
    if status >= 400 {
        Some(
            ErrorView::Api {
                status,
                body: match error_text {
                    Some(t) => text_or_empty(t),
                    None => Seq::empty(),
                },
            },
        )
    } else {
        None
    }
}

/// The failure of an outcome without a value, if any.
pub open spec fn failure_view(r: Result<(), Error>) -> Option<ErrorView> {
    match r {
        Ok(_) => None,
        Err(e) => Some(e@),
    }
}

/// Whether a status is answered with an API error.
pub fn is_error_status(status: u16) -> (r: bool)
    ensures
        r == (status >= 400),
{
    status >= 400
}

/// The body text, or an empty text when it could not be read.
fn text_or_default(text: Result<String, reqwest::Error>) -> (r: String)
    ensures
        r@ == text_or_empty(text_view(text)),
{
    match text {
        Ok(t) => t,
        Err(_) => String::new(),
    }
}

/// Reads a reply that carries a value, from its status, its body text (or
/// the failure to read it) and the `data` member of the `{"data": ...}`
/// envelope when the text parsed as one (null included).
pub fn read_reply(
    status: u16,
    text: Result<String, reqwest::Error>,
    envelope_data: Option<serde_json::Value>,
) -> (r: Result<Payload, Error>)
    ensures
        reply_view(r) == reply_spec(status, text_view(text), envelope_data),
{
    if is_error_status(status) {
        return Err(Error::Api { status, body: text_or_default(text) });
    }
    match text {
        Err(e) => Err(Error::Http(e)),
        Ok(t) => {
            if t.as_str().is_empty() {
                return Ok(Payload::WholeBody(t));
            }
            match envelope_data {
                Some(d) => if is_null(&d) {
                    Ok(Payload::WholeBody(t))
                } else {
                    Ok(Payload::EnvelopeData(d))
                },
                None => Ok(Payload::WholeBody(t)),
            }
        },
    }
}

/// Reads a reply that carries no value, from its status and, for a status
/// of 400 or more, the body text read on that path.
pub fn read_empty_reply(status: u16, error_text: Option<Result<String, reqwest::Error>>) -> (r: Result<
    (),
    Error,
>)
    ensures
        failure_view(r) == empty_reply_spec(
            status,
            match error_text {
                Some(t) => Some(text_view(t)),
                None => None,
            },
        ),
{
    if is_error_status(status) {
        let body = match error_text {
            Some(t) => text_or_default(t),
            None => String::new(),
        };
        Err(Error::Api { status, body })
    } else {
        Ok(())
    }
}

/// A decoding outcome in terms of the library's error.
pub fn decoded<T>(r: Result<T, serde_json::Error>) -> (out: Result<T, Error>)
    ensures
        match r {
            Ok(v) => out == Ok::<T, Error>(v),
            Err(e) => out == Err::<T, Error>(Error::Parse(e)),
        },
{
    match r {
        Ok(v) => Ok(v),
        Err(e) => Err(Error::Parse(e)),
    }
}

} // verus!
