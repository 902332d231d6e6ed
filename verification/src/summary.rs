//! What came back, and the one line that reports it.

use crate::decimal::{decimal, lemma_decimal_of_three_digits};
use crate::headers::{debug_headers, headers_debug_text};
use crate::status::{status_text, Status, MAX_STATUS, MIN_STATUS};
use crate::timestamp::{Moment, Timestamp};
use reqwest::header::{HeaderMap, HeaderValue};
use vstd::prelude::*;

verus! {

/// What stands for a body that could not be read as text.
pub const BODY_SENTINEL: &'static str = "[FAILED TO PARSE BODY]";

/// The body of a summary: the decoded text as it is, or the sentinel.
pub open spec fn body_text_of(decoded: Option<Seq<char>>) -> Seq<char> {
    match decoded {
        Some(text) => text,
        None => BODY_SENTINEL@,
    }
}

/// The summary line up to and including the status.
pub open spec fn rendered_head(timestamp: Moment, status_code: u16) -> Seq<char> {
    "Executed on "@ + timestamp.text() + ". Status "@ + status_text(status_code)
}

/// The summary line:
/// `Executed on <timestamp>. Status <status>; Headers: <headers>; Body: <body>`.
pub open spec fn rendered(
    timestamp: Moment,
    status_code: u16,
    headers: Seq<char>,
    body: Seq<char>,
) -> Seq<char> {
    rendered_head(timestamp, status_code) + "; Headers: "@ + headers + "; Body: "@ + body
}

/// The body of a summary: the decoded text as it is, or the sentinel where
/// decoding failed.
pub fn body_text(decoded: Option<String>) -> (text: String)
    ensures
        text@ == body_text_of(decoded.deep_view()),
{
    match decoded {
        Some(text) => text,
        None => String::from_str(BODY_SENTINEL),
    }
}

/// A response as the summary line needs it.
#[derive(Debug)]
pub struct ResponseSummary {
    pub timestamp: Timestamp,
    pub status_code: Status,
    pub headers: HeaderMap<HeaderValue>,
    pub body_text: String,
}

impl ResponseSummary {
    /// The line that `message` returns for this summary.
    pub open spec fn message_text(&self) -> Seq<char> {
        rendered(
            self.timestamp@,
            self.status_code@,
            headers_debug_text(self.headers),
            self.body_text@,
        )
    }

    /// Records a response that was received in full: status and headers as
    /// they are, the body as text or as the sentinel, and then the time.
    pub fn capture(
        status_code: Status,
        headers: HeaderMap<HeaderValue>,
        decoded_body: Option<String>,
    ) -> (summary: ResponseSummary)
        ensures
            summary.timestamp@.valid(),
            summary.status_code == status_code,
            summary.headers == headers,
            summary.body_text@ == body_text_of(decoded_body.deep_view()),
    {
        let body_text = body_text(decoded_body);
        let timestamp = Timestamp::now();
        ResponseSummary { timestamp, status_code, headers, body_text }
    }

    /// The summary as one line.
    pub fn message(&self) -> (line: String)
        ensures
            line@ == self.message_text(),
    {
        let mut line = String::from_str("Executed on ");
        line.append(self.timestamp.text().as_str());
        line.append(". Status ");
        line.append(self.status_code.line().as_str());
        line.append("; Headers: ");
        line.append(debug_headers(&self.headers).as_str());
        line.append("; Body: ");
        line.append(self.body_text.as_str());
        line
    }
}

/// Everything that happens once a response is in: it is recorded with the
/// local time of this call, and reported as one line. Any status will do,
/// and so will a body that could not be decoded.
pub fn summarize(
    status_code: Status,
    headers: HeaderMap<HeaderValue>,
    decoded_body: Option<String>,
) -> (line: String)
    ensures
        exists|now: Moment|
            now.valid() && line@ == #[trigger] rendered(
                now,
                status_code@,
                headers_debug_text(headers),
                body_text_of(decoded_body.deep_view()),
            ),
{
    let summary = ResponseSummary::capture(status_code, headers, decoded_body);
    summary.message()
}

/// Whether `part` stands somewhere in `line`, unbroken.
pub open spec fn occurs_in(part: Seq<char>, line: Seq<char>) -> bool {
    exists|at: int|
        0 <= at && at + part.len() <= line.len() && #[trigger] line.subrange(
            at,
            at + part.len(),
        ) == part
}

/// Whatever the status, the line shows `Status ` and then the three digits
/// of the code, right after the timestamp.
pub proof fn lemma_message_shows_status_code(
    timestamp: Moment,
    status_code: u16,
    headers: Seq<char>,
    body: Seq<char>,
)
    requires
        MIN_STATUS <= status_code <= MAX_STATUS,
    ensures
        decimal(status_code as int).len() == 3,
        occurs_in(
            "Status "@ + decimal(status_code as int),
            rendered(timestamp, status_code, headers, body),
        ),
{
    lemma_decimal_of_three_digits(status_code as int);
    reveal_strlit(". Status ");
    reveal_strlit("Status ");
    let line = rendered(timestamp, status_code, headers, body);
    let part = "Status "@ + decimal(status_code as int);
    let at = ("Executed on "@.len() + timestamp.text().len() + 2) as int;
    assert(line.subrange(at, at + part.len()) == part);
}

/// The line ends with `; Body: ` and the body, whatever the body holds.
pub proof fn lemma_message_ends_with_body(
    timestamp: Moment,
    status_code: u16,
    headers: Seq<char>,
    body: Seq<char>,
)
    ensures
        ({
            let line = rendered(timestamp, status_code, headers, body);
            let tail = "; Body: "@ + body;
            &&& tail.len() <= line.len()
            &&& line.subrange(line.len() - tail.len(), line.len() as int) == tail
        }),
{
}

/// A body that could not be decoded is reported as the sentinel, and the
/// line then ends with `; Body: [FAILED TO PARSE BODY]`.
pub proof fn lemma_undecoded_body_shows_sentinel(
    timestamp: Moment,
    status_code: u16,
    headers: Seq<char>,
)
    ensures
        body_text_of(None) == "[FAILED TO PARSE BODY]"@,
        ({
            let line = rendered(timestamp, status_code, headers, body_text_of(None));
            let tail = "; Body: [FAILED TO PARSE BODY]"@;
            &&& tail.len() <= line.len()
            &&& line.subrange(line.len() - tail.len(), line.len() as int) == tail
        }),
{
    reveal_strlit("; Body: ");
    reveal_strlit("[FAILED TO PARSE BODY]");
    reveal_strlit("; Body: [FAILED TO PARSE BODY]");
    lemma_message_ends_with_body(timestamp, status_code, headers, body_text_of(None));
    assert("; Body: "@ + "[FAILED TO PARSE BODY]"@ == "; Body: [FAILED TO PARSE BODY]"@);
}

/// The line is a function of timestamp, status, headers and body: summaries
/// that agree in these four give the same line.
pub proof fn lemma_same_parts_same_message(a: ResponseSummary, b: ResponseSummary)
    requires
        a.timestamp@ == b.timestamp@,
        a.status_code@ == b.status_code@,
        a.headers == b.headers,
        a.body_text@ == b.body_text@,
    ensures
        a.message_text() == b.message_text(),
{
}

} // verus!
