//! The incoming event: every field optional, the body either text or bytes.

use crate::headers::TextPair;
use crate::method::Method;
use vstd::prelude::*;

verus! {

/// A request payload: text, or raw bytes, never both.
#[derive(Debug, PartialEq, Clone)]
pub enum Body {
    String(String),
    Bytes(Vec<u8>),
}

/// What a `Body` holds.
pub enum BodyModel {
    Text(Seq<char>),
    Bytes(Seq<u8>),
}

impl View for Body {
    type V = BodyModel;

    open spec fn view(&self) -> BodyModel {
        match self {
            Body::String(text) => BodyModel::Text(text@),
            Body::Bytes(bytes) => BodyModel::Bytes(bytes@),
        }
    }
}

/// The event that starts one invocation.
#[derive(Debug, Clone, PartialEq)]
pub struct ConfigEvent {
    pub url: Option<String>,
    pub method: Option<Method>,
    pub headers: Option<Vec<(String, String)>>,
    pub body: Option<Body>,
    pub timeout: Option<u64>,
}

/// What a `ConfigEvent` holds.
pub struct EventModel {
    pub url: Option<Seq<char>>,
    pub method: Option<Method>,
    pub headers: Option<Seq<TextPair>>,
    pub body: Option<BodyModel>,
    pub timeout: Option<u64>,
}

impl View for ConfigEvent {
    type V = EventModel;

    open spec fn view(&self) -> EventModel {
        EventModel {
            url: match self.url {
                Some(url) => Some(url@),
                None => None,
            },
            method: self.method,
            headers: match self.headers {
                Some(headers) => Some(headers.deep_view()),
                None => None,
            },
            body: match self.body {
                Some(body) => Some(body@),
                None => None,
            },
            timeout: self.timeout,
        }
    }
}

} // verus!
