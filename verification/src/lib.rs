//! A configurable HTTP request executor, as the two halves of one invocation
//! that need no network: `request::prepare` turns an event into a fully
//! defaulted request with its headers encoded, and `summary::summarize` turns
//! the response into one line of text.
//!
//! Sending the request is the caller's part. What the HTTP and calendar
//! crates contribute is stated where it is called and taken on trust; all else
//! is proved against the contracts it stands under.

pub mod decimal;
pub mod event;
pub mod headers;
pub mod method;
pub mod request;
pub mod status;
pub mod summary;
pub mod timestamp;

pub use crate::event::{Body, ConfigEvent};
pub use crate::method::Method;
pub use crate::request::{prepare, OutgoingRequest, RequestError, RequestSpec};
pub use crate::summary::{summarize, ResponseSummary};
