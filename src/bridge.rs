//! Decisions of one exchange with the documentation service.
//!
//! The exchange itself (the POST, the wait for the answer, the pull of each
//! server-sent event) is done by the caller; each function here takes what
//! the exchange produced and says what happens next.

use vstd::prelude::*;
use vstd::string::*;

use crate::json::{
    describe_json_error, has_member, is_json_text, json_member_names, member_names, parse_json,
};
use crate::text::{contains, decimal, decimal_string, str_contains};

verus! {

/// The service's JSON-RPC endpoint.
pub const BACKEND_URL: &'static str = "https://bun.com/docs/mcp";

/// Seconds that one exchange with the service may take.
pub const REQUEST_TIMEOUT_SECS: u64 = 5;

/// `Content-Type` of every request.
pub const REQUEST_CONTENT_TYPE: &'static str = "application/json";

/// `Accept` of every request: a plain JSON body or an event stream.
pub const ACCEPT_TYPES: &'static str = "application/json, text/event-stream";

/// The media type by which the service announces an event stream.
pub const EVENT_STREAM_TYPE: &'static str = "text/event-stream";

/// Stands in for the body of a failed answer that could not be read.
pub const UNREADABLE_BODY: &'static str = "unknown error";

/// Why one exchange gave no response.
#[derive(Debug)]
pub enum BridgeError {
    /// The request could not be sent, or no answer came in time.
    Send(String),
    /// The service answered with a status outside `200..=299`.
    Status { code: u16, body: String },
    /// The body of a plain answer is not one JSON document.
    Decode(String),
    /// The event stream ended, or broke, before it carried a final response.
    NoResponse,
}

pub open spec fn send_prefix() -> Seq<char> {
    "Failed to send request to Bun Docs API: "@
}

pub open spec fn status_prefix() -> Seq<char> {
    "Bun Docs API error: "@
}

pub open spec fn decode_prefix() -> Seq<char> {
    "Failed to parse JSON response: "@
}

pub open spec fn no_response_text() -> Seq<char> {
    "No valid JSON-RPC response in SSE stream"@
}

/// The text by which an error is reported.
pub open spec fn error_text(e: BridgeError) -> Seq<char> {
    match e {
        BridgeError::Send(m) => send_prefix() + m@,
        BridgeError::Status { code, body } => status_prefix() + decimal(code as nat) + " - "@
            + body@,
        BridgeError::Decode(m) => decode_prefix() + m@,
        BridgeError::NoResponse => no_response_text(),
    }
}

impl BridgeError {
    /// The text by which this error is reported.
    pub fn message(&self) -> (r: String)
        ensures
            r@ == error_text(*self),
    {
        match self {
            BridgeError::Send(m) => {
                let mut s = String::from_str("Failed to send request to Bun Docs API: ");
                s.append(m.as_str());
                s
            },
            BridgeError::Status { code, body } => {
                let mut s = String::from_str("Bun Docs API error: ");
                let digits = decimal_string(*code);
                s.append(digits.as_str());
                s.append(" - ");
                s.append(body.as_str());
                s
            },
            BridgeError::Decode(m) => {
                let mut s = String::from_str("Failed to parse JSON response: ");
                s.append(m.as_str());
                s
            },
            BridgeError::NoResponse => String::from_str("No valid JSON-RPC response in SSE stream"),
        }
    }
}

/// A status in `200..=299`.
pub open spec fn is_success_status(code: u16) -> bool {
    200 <= code < 300
}

/// Whether `code` reports success.
pub fn is_success(code: u16) -> (r: bool)
    ensures
        r == is_success_status(code),
{
    200 <= code && code < 300
}

/// How the body of an answer is to be read.
#[derive(PartialEq, Eq, Structural, Clone, Copy, Debug)]
pub enum Route {
    /// The status failed: read the body as text for the error.
    Failed,
    /// Read the body as a stream of server-sent events.
    EventStream,
    /// Read the whole body as one JSON document.
    Json,
}

pub open spec fn announces_event_stream(content_type: Option<&str>) -> bool {
    match content_type {
        Some(ct) => contains(ct@, EVENT_STREAM_TYPE@),
        None => false,
    }
}

pub open spec fn route_of(code: u16, content_type: Option<&str>) -> Route {
    if !is_success_status(code) {
        Route::Failed
    } else if announces_event_stream(content_type) {
        Route::EventStream
    } else {
        Route::Json
    }
}

/// How to read an answer with status `code` and the given `Content-Type`
/// (`None` where the header is missing or not text).
pub fn route_response(code: u16, content_type: Option<&str>) -> (r: Route)
    ensures
        r == route_of(code, content_type),
{
    if !is_success(code) {
        return Route::Failed;
    }
    match content_type {
        Some(ct) => {
            if str_contains(ct, EVENT_STREAM_TYPE) {
                Route::EventStream
            } else {
                Route::Json
            }
        },
        None => Route::Json,
    }
}

/// The error for a failed status; `body` is `None` where it could not be read.
pub fn status_error(code: u16, body: Option<String>) -> (r: BridgeError)
    ensures
        r matches BridgeError::Status { code: c, body: b } && c == code && b@ == match body {
            Some(t) => t@,
            None => UNREADABLE_BODY@,
        },
{
    match body {
        Some(t) => BridgeError::Status { code, body: t },
        None => BridgeError::Status { code, body: String::from_str(UNREADABLE_BODY) },
    }
}

/// The response that a plain answer's body gives, once serde_json has read it.
pub fn accept_body(parsed: Result<serde_json::Value, serde_json::Error>) -> (r: Result<
    serde_json::Value,
    BridgeError,
>)
    ensures
        parsed matches Ok(v) ==> r == Ok::<serde_json::Value, BridgeError>(v),
        parsed is Err ==> r matches Err(BridgeError::Decode(_)),
{
    match parsed {
        Ok(v) => Ok(v),
        Err(e) => Err(BridgeError::Decode(describe_json_error(&e))),
    }
}

/// The response that a plain answer's body gives: the document the body
/// holds, with the body's top-level member names.
pub fn decode_body(body: &str) -> (r: Result<serde_json::Value, BridgeError>)
    ensures
        r is Ok <==> is_json_text(body@),
        r matches Ok(v) ==> member_names(v) == json_member_names(body@),
        r is Err ==> r matches Err(BridgeError::Decode(_)),
{
    accept_body(parse_json(body))
}

/// A JSON-RPC response that ends the exchange: it holds a `result` or an `error`.
pub open spec fn is_final_response(v: serde_json::Value) -> bool {
    member_names(v).contains("result"@) || member_names(v).contains("error"@)
}

/// Event data whose document is a final JSON-RPC response: it has a
/// `result` or an `error` member.
pub open spec fn is_final_text(data: Seq<char>) -> bool {
    json_member_names(data).contains("result"@) || json_member_names(data).contains("error"@)
}

/// What one pull on the event stream gave, as the relay reads it.
#[derive(Debug)]
pub enum SseItem {
    /// An event with no data.
    Empty,
    /// An event whose data is not JSON; the parser's message.
    Malformed(String),
    /// An event whose data is JSON but no final response.
    Intermediate,
    /// An event whose data is a final response.
    Response(serde_json::Value),
    /// The stream broke; the reason.
    Failed(String),
    /// The stream ended.
    Ended,
}

/// What an event's data is, once serde_json has read it.
pub fn judge_parsed(parsed: Result<serde_json::Value, serde_json::Error>) -> (r: SseItem)
    ensures
        parsed matches Ok(v) ==> (if is_final_response(v) {
            r == SseItem::Response(v)
        } else {
            r == SseItem::Intermediate
        }),
        parsed is Err ==> r is Malformed,
{
    match parsed {
        Ok(v) => {
            if has_member(&v, "result") || has_member(&v, "error") {
                SseItem::Response(v)
            } else {
                SseItem::Intermediate
            }
        },
        Err(e) => SseItem::Malformed(describe_json_error(&e)),
    }
}

/// What an event with data `data` is.
pub fn judge_event(data: &str) -> (r: SseItem)
    ensures
        data@.len() == 0 <==> r is Empty,
        data@.len() > 0 ==> (r is Malformed <==> !is_json_text(data@)),
        data@.len() > 0 && is_json_text(data@) ==> if is_final_text(data@) {
            r is Response
        } else {
            r is Intermediate
        },
        r matches SseItem::Response(v) ==> is_final_response(v) && member_names(v)
            == json_member_names(data@),
{
    if data.is_empty() {
        SseItem::Empty
    } else {
        judge_parsed(parse_json(data))
    }
}

/// What the relay does after one pull on the event stream.
#[derive(Debug)]
pub enum SseStep {
    /// Pull the next event.
    Continue,
    /// Stop reading the stream; the exchange's outcome.
    Finish(Result<serde_json::Value, BridgeError>),
}

pub open spec fn step_of(item: SseItem) -> SseStep {
    match item {
        SseItem::Response(v) => SseStep::Finish(Ok(v)),
        SseItem::Failed(_) => SseStep::Finish(Err(BridgeError::NoResponse)),
        SseItem::Ended => SseStep::Finish(Err(BridgeError::NoResponse)),
        _ => SseStep::Continue,
    }
}

/// The step after a pull that gave `item`: a final response ends the exchange
/// with it, a broken or ended stream ends it with no response, and any other
/// event is passed over.
pub fn sse_step(item: SseItem) -> (r: SseStep)
    ensures
        r == step_of(item),
{
    match item {
        SseItem::Response(v) => SseStep::Finish(Ok(v)),
        SseItem::Failed(_) => SseStep::Finish(Err(BridgeError::NoResponse)),
        SseItem::Ended => SseStep::Finish(Err(BridgeError::NoResponse)),
        _ => SseStep::Continue,
    }
}

/// The outcome of reading a stream whose pulls give `items`, in order; a
/// stream that runs out of items counts as ended.
pub open spec fn recovered(items: Seq<SseItem>) -> Result<serde_json::Value, BridgeError>
    decreases items.len(),
{
    if items.len() == 0 {
        Err(BridgeError::NoResponse)
    } else {
        match step_of(items[0]) {
            SseStep::Finish(r) => r,
            SseStep::Continue => recovered(items.drop_first()),
        }
    }
}

/// An event stream is read up to its first final response, which becomes the
/// exchange's outcome: the events before it that carry no data, data that is
/// not JSON, or JSON that is no final response are passed over, and nothing
/// after it is read.
pub proof fn lemma_first_final_response_wins(
    before: Seq<SseItem>,
    v: serde_json::Value,
    after: Seq<SseItem>,
)
    requires
        forall|i: int|
            0 <= i < before.len() ==> (#[trigger] before[i] is Empty || before[i] is Malformed
                || before[i] is Intermediate),
    ensures
        recovered(before + seq![SseItem::Response(v)] + after) == Ok::<
            serde_json::Value,
            BridgeError,
        >(v),
    decreases before.len(),
{
    let all = before + seq![SseItem::Response(v)] + after;
    if before.len() == 0 {
        assert(all[0] == SseItem::Response(v));
    } else {
        let rest = before.drop_first();
        assert forall|i: int| 0 <= i < rest.len() implies (#[trigger] rest[i] is Empty
            || rest[i] is Malformed || rest[i] is Intermediate) by {
            assert(rest[i] == before[i + 1]);
        }
        lemma_first_final_response_wins(rest, v, after);
        assert(all[0] == before[0]);
        assert(all.drop_first() =~= rest + seq![SseItem::Response(v)] + after);
    }
}

/// A stream that carries no final response before it ends or breaks gives
/// no response.
pub proof fn lemma_no_final_response(items: Seq<SseItem>)
    requires
        forall|i: int| 0 <= i < items.len() ==> !(#[trigger] items[i] is Response),
    ensures
        recovered(items) == Err::<serde_json::Value, BridgeError>(BridgeError::NoResponse),
    decreases items.len(),
{
    if items.len() > 0 {
        let rest = items.drop_first();
        assert forall|i: int| 0 <= i < rest.len() implies !(#[trigger] rest[i] is Response) by {
            assert(rest[i] == items[i + 1]);
        }
        assert(!(items[0] is Response));
        lemma_no_final_response(rest);
    }
}

/// The relay keeps nothing from one exchange to the next: two exchanges that
/// get the same answer (status, content type text, and the items of the
/// event stream) are routed alike and end alike.
pub proof fn lemma_exchange_repeatable(
    code: u16,
    first_type: Option<&str>,
    second_type: Option<&str>,
    first: Seq<SseItem>,
    second: Seq<SseItem>,
)
    requires
        first_type is Some <==> second_type is Some,
        first_type is Some ==> first_type->0@ == second_type->0@,
        first == second,
    ensures
        route_of(code, first_type) == route_of(code, second_type),
        recovered(first) == recovered(second),
{
}

} // verus!
