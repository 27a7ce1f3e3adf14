//! Client library for the Meshbrow browser-fleet API: the requests it sends,
//! the JSON bodies it builds, the headers it carries and how it reads replies.
pub mod body_laws;
pub mod client;
pub mod error;
pub mod json;
pub mod laws;
pub mod reply;
pub mod request;
pub mod types;

pub use client::Client;
pub use error::Error;
pub use json::{Body, Member, Scalar};
pub use reply::{decoded, is_error_status, read_empty_reply, read_reply, Payload};
pub use request::{ApiRequest, Method};
pub use types::{
    CreateFleetParams, CreateSessionParams, ExecuteResponse, ExtractResponse, Fleet,
    NavigateResponse, ProxyParams, Screenshot, Session, SessionListResponse, Viewport,
};
