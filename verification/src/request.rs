//! From an event to the request that goes out: defaults first, then the
//! headers in their transport form.

use crate::event::{Body, BodyModel, ConfigEvent, EventModel};
use crate::headers::{
    acceptable_before, encode_headers, encoded_fields, header_fields, refused_by, Field,
    HeaderError, TextPair, HEADER_ROOM,
};
use crate::method::Method;
use reqwest::header::{HeaderMap, HeaderValue};
use vstd::prelude::*;

verus! {

/// The timeout of a request whose event names none, in milliseconds.
pub const DEFAULT_TIMEOUT_MILLIS: u64 = 10000;

/// Why an event gives no request.
#[derive(Debug, Clone, Copy, PartialEq, Eq, Structural)]
pub enum RequestError {
    /// The event has no `url`.
    MissingUrl,
    /// The event's headers cannot be encoded.
    Header(HeaderError),
}

impl RequestError {
    /// What went wrong, in words.
    pub open spec fn description(self) -> Seq<char> {
        match self {
            RequestError::MissingUrl => "the event names no url"@,
            RequestError::Header(error) => error.description(),
        }
    }

    /// What went wrong, in words.
    pub fn describe(&self) -> (text: &'static str)
        ensures
            text@ == self.description(),
    {
        match self {
            RequestError::MissingUrl => "the event names no url",
            RequestError::Header(error) => error.describe(),
        }
    }
}

/// An event with every gap filled: what to call, and how.
#[derive(Debug, Clone, PartialEq)]
pub struct RequestSpec {
    pub url: String,
    pub method: Method,
    pub headers: Vec<(String, String)>,
    pub body: Body,
    pub timeout_millis: u64,
}

/// What a `RequestSpec` holds.
pub struct RequestModel {
    pub url: Seq<char>,
    pub method: Method,
    pub headers: Seq<TextPair>,
    pub body: BodyModel,
    pub timeout_millis: u64,
}

impl View for RequestSpec {
    type V = RequestModel;

    open spec fn view(&self) -> RequestModel {
        RequestModel {
            url: self.url@,
            method: self.method,
            headers: self.headers.deep_view(),
            body: self.body@,
            timeout_millis: self.timeout_millis,
        }
    }
}

/// The request that an event asks for, if it names a URL: `POST`, no
/// headers, an empty text body and `DEFAULT_TIMEOUT_MILLIS` wherever the
/// event is silent.
pub open spec fn resolved(event: EventModel) -> Option<RequestModel> {
    match event.url {
        None => None,
        Some(url) => Some(
            RequestModel {
                url,
                method: match event.method {
                    Some(method) => method,
                    None => Method::POST,
                },
                headers: match event.headers {
                    Some(headers) => headers,
                    None => Seq::empty(),
                },
                body: match event.body {
                    Some(body) => body,
                    None => BodyModel::Text(Seq::empty()),
                },
                timeout_millis: match event.timeout {
                    Some(timeout) => timeout,
                    None => DEFAULT_TIMEOUT_MILLIS,
                },
            },
        ),
    }
}

impl RequestSpec {
    /// Fills the gaps of an event. Only an event without a URL is refused.
    pub fn from_event(event: ConfigEvent) -> (built: Result<RequestSpec, RequestError>)
        ensures
            match built {
                Ok(spec) => resolved(event@) == Some(spec@),
                Err(error) => error == RequestError::MissingUrl && resolved(event@) is None,
            },
    {
        let url = match event.url {
            Some(url) => url,
            None => {
                return Err(RequestError::MissingUrl);
            },
        };
        let method = match event.method {
            Some(method) => method,
            None => Method::POST,
        };
        let headers = match event.headers {
            Some(headers) => headers,
            None => Vec::new(),
        };
        let body = match event.body {
            Some(body) => body,
            None => Body::String(String::new()),
        };
        let timeout_millis = match event.timeout {
            Some(timeout) => timeout,
            None => DEFAULT_TIMEOUT_MILLIS,
        };
        let spec = RequestSpec { url, method, headers, body, timeout_millis };
        proof {
            assert(spec@.headers =~= resolved(event@).unwrap().headers);
        }
        Ok(spec)
    }

    /// Puts the headers into their transport form and leaves the rest as it
    /// is. Fails exactly when `encode_headers` refuses the headers.
    pub fn encode(self) -> (encoded: Result<OutgoingRequest, HeaderError>)
        ensures
            match encoded {
                Ok(request) => {
                    &&& acceptable_before(self@.headers, self@.headers.len() as int)
                    &&& request.carries(self@)
                },
                Err(error) => refused_by(self@.headers, error),
            },
            self@.headers.len() <= HEADER_ROOM ==> (encoded is Ok <==> acceptable_before(
                self@.headers,
                self@.headers.len() as int,
            )),
    {
        let headers = match encode_headers(&self.headers) {
            Ok(headers) => headers,
            Err(error) => {
                return Err(error);
            },
        };
        Ok(
            OutgoingRequest {
                url: self.url,
                method: self.method,
                headers,
                body: self.body,
                timeout_millis: self.timeout_millis,
            },
        )
    }
}

/// A request in the form in which the transport takes it.
#[derive(Debug)]
pub struct OutgoingRequest {
    pub url: String,
    pub method: Method,
    pub headers: HeaderMap<HeaderValue>,
    pub body: Body,
    pub timeout_millis: u64,
}

impl OutgoingRequest {
    /// Whether this is the request that `spec` describes: the same URL,
    /// method, body and timeout, and the headers of `spec` set one by one.
    pub open spec fn carries(&self, spec: RequestModel) -> bool {
        &&& self.url@ == spec.url
        &&& self.method == spec.method
        &&& header_fields(self.headers) == encoded_fields(spec.headers)
        &&& self.body@ == spec.body
        &&& self.timeout_millis == spec.timeout_millis
    }
}

/// Everything that happens before the request is sent: the event's gaps are
/// filled, then its headers encoded.
///
/// An event without a URL gives `MissingUrl` whatever else it holds. With a
/// URL, the outcome is that of encoding its headers: a request, if there are
/// at most `HEADER_ROOM` of them and all are acceptable.
pub fn prepare(event: ConfigEvent) -> (prepared: Result<OutgoingRequest, RequestError>)
    ensures
        event@.url is None <==> prepared == Err::<OutgoingRequest, _>(RequestError::MissingUrl),
        resolved(event@) matches Some(spec) ==> (spec.headers.len() <= HEADER_ROOM ==> (prepared
            is Ok <==> acceptable_before(spec.headers, spec.headers.len() as int))),
        match prepared {
            Ok(request) => {
                &&& resolved(event@) matches Some(spec)
                &&& acceptable_before(spec.headers, spec.headers.len() as int)
                &&& request.carries(spec)
            },
            Err(RequestError::MissingUrl) => resolved(event@) is None,
            Err(RequestError::Header(error)) => {
                &&& resolved(event@) matches Some(spec)
                &&& refused_by(spec.headers, error)
            },
        },
{
    let spec = match RequestSpec::from_event(event) {
        Ok(spec) => spec,
        Err(error) => {
            return Err(error);
        },
    };
    match spec.encode() {
        Ok(request) => Ok(request),
        Err(error) => Err(RequestError::Header(error)),
    }
}

/// An event that names only a URL asks for a `POST` to it with no headers,
/// an empty text body and a timeout of `DEFAULT_TIMEOUT_MILLIS`, and nothing
/// about such a request can be refused.
pub proof fn lemma_url_alone_takes_every_default(url: Seq<char>)
    ensures
        resolved(
            EventModel { url: Some(url), method: None, headers: None, body: None, timeout: None },
        ) == Some(
            RequestModel {
                url,
                method: Method::POST,
                headers: Seq::empty(),
                body: BodyModel::Text(Seq::empty()),
                timeout_millis: DEFAULT_TIMEOUT_MILLIS,
            },
        ),
        encoded_fields(Seq::<TextPair>::empty()) == Seq::<Field>::empty(),
        forall|error: HeaderError| !refused_by(Seq::<TextPair>::empty(), error),
{
}

/// An event without a URL resolves to no request, whatever else it holds.
pub proof fn lemma_no_url_no_request(event: EventModel)
    requires
        event.url is None,
    ensures
        resolved(event) is None,
{
}

/// Whatever an event leaves out is taken from the defaults, and whatever it
/// names is taken as it stands.
pub proof fn lemma_resolved_keeps_what_is_named(event: EventModel)
    requires
        event.url is Some,
    ensures
        resolved(event) is Some,
        resolved(event).unwrap().url == event.url.unwrap(),
        event.method matches Some(method) ==> resolved(event).unwrap().method == method,
        event.method is None ==> resolved(event).unwrap().method == Method::POST,
        event.headers matches Some(headers) ==> resolved(event).unwrap().headers == headers,
        event.headers is None ==> resolved(event).unwrap().headers == Seq::<TextPair>::empty(),
        event.body matches Some(body) ==> resolved(event).unwrap().body == body,
        event.body is None ==> resolved(event).unwrap().body == BodyModel::Text(Seq::empty()),
        event.timeout matches Some(timeout) ==> resolved(event).unwrap().timeout_millis == timeout,
        event.timeout is None ==> resolved(event).unwrap().timeout_millis
            == DEFAULT_TIMEOUT_MILLIS,
{
}

} // verus!
