//! The agent: it passes the broker's requests on to a service of its own machine.
use crate::http;
use crate::http::{forward_headers, forward_method, Header, RawHeader};
use crate::ids;
use crate::ids::{hyphenated_text, random_id};
use crate::mesh::messages;
use crate::mesh::messages::{FrameKind, RequestPayload, ResponsePayload};
use vstd::prelude::*;
use vstd::string::StrSliceExecFns;

verus! {

/// How many seconds pass between two heartbeats.
pub const HEARTBEAT_SECS: u64 = 10;

/// How many seconds the service may take to answer.
pub const SERVICE_TIMEOUT_SECS: u64 = 10;

/// Draws a name for an agent at random: an identifier with hyphens.
pub fn new_agent_name() -> (name: String)
    ensures
        exists|id: u128|
            (id >> 76u128) & 0xf == 4 && (id >> 62u128) & 0x3 == 2 && name@
                == #[trigger] ids::hyphenated_of(id),
{
    let id: u128 = random_id();
    hyphenated_text(id)
}

/// A request to the service.
pub struct ServiceRequest {
    /// The method to ask with.
    pub method: String,
    /// The address to ask.
    pub url: String,
    /// The headers.
    pub headers: Vec<Header>,
    /// The body, where there is one.
    pub body: Option<Vec<u8>>,
}

/// Whether a frame from the broker is to be acted on: requests are, other frames are
/// passed over.
pub fn is_for_service(kind: FrameKind) -> (acted_on: bool)
    ensures
        acted_on == (kind == FrameKind::Request),
{
    kind == FrameKind::Request
}

/// Whether a request to the service is what the broker asked for: the service's own
/// address goes before what was asked for, a method that is none becomes `GET`, the
/// headers are kept, and a body without bytes is none.
pub open spec fn asks_service(
    asked: ServiceRequest,
    target: Seq<char>,
    request: RequestPayload,
) -> bool {
    &&& asked.url@ == target + request.uri@
    &&& asked.method@ == if http::is_token(request.method@) {
        request.method@
    } else {
        "GET"@
    }
    &&& asked.headers@ == request.headers@
    &&& match asked.body {
        Some(body) => body@ == request.body@ && body@.len() > 0,
        None => request.body@.len() == 0,
    }
}

/// Turns a request of the broker into one to the service.
pub fn service_request(target: &str, request: RequestPayload) -> (asked: ServiceRequest)
    ensures
        asks_service(asked, target@, request),
{
    let method = forward_method(request.method.as_str());
    let url = target.to_owned().concat(request.uri.as_str());
    let body = if request.body.len() > 0 {
        Some(request.body)
    } else {
        None
    };
    ServiceRequest { method, url, headers: request.headers, body }
}

/// Turns an answer of the service into one to the broker. Headers whose value has no
/// text are left out.
pub fn service_reply(status: u16, headers: &Vec<RawHeader>, body: Vec<u8>) -> (reply:
    ResponsePayload)
    ensures
        reply@ == (messages::ResponsePayloadView {
            status: status as u32,
            headers: http::shown_headers(headers@, headers@.len()),
            body: body@,
        }),
{
    ResponsePayload { status: status as u32, headers: forward_headers(headers), body }
}

/// The headers of the answer for a service that was not reached.
pub open spec fn plain_text_headers() -> Map<Seq<char>, Seq<char>> {
    Map::empty().insert("content-type"@, "text/plain"@)
}

/// The text of the answer for a service that was not reached.
pub open spec fn fallback_words(agent_id: Seq<char>, error: Seq<char>) -> Seq<char> {
    "Mock Response from Volunteer Agent "@ + agent_id + "! (Failed proxy: "@ + error + ")"@
}

/// Builds the answer for a service that was not reached: it says so, as a success,
/// to show that the tunnel itself works.
pub fn fallback_reply(agent_id: &str, error: &str) -> (reply: ResponsePayload)
    ensures
        reply@ == (messages::ResponsePayloadView {
            status: 200,
            headers: plain_text_headers(),
            body: vstd::utf8::encode_utf8(fallback_words(agent_id@, error@)),
        }),
{
    let mut headers: Vec<Header> = Vec::new();
    headers.push(Header { name: "content-type".to_owned(), value: "text/plain".to_owned() });
    assert(http::header_map(headers@, 0) =~= Map::empty());
    assert(http::header_map(headers@, 1) =~= plain_text_headers());
    let mut words = "Mock Response from Volunteer Agent ".to_owned();
    words.append(agent_id);
    words.append("! (Failed proxy: ");
    words.append(error);
    words.append(")");
    ResponsePayload { status: 200, headers, body: words.as_str().as_bytes_vec() }
}

// ── laws ────────────────────────────────────────────────────────────────────
/// A visitor's request arrives at the service: with the same words asked for behind
/// the service's address, the same body, the same method, and the headers whose value
/// has a text.
pub proof fn requests_arrive(
    agent: Seq<char>,
    request_id: Seq<char>,
    visitor: messages::VisitorRequest,
    payload: RequestPayload,
    target: Seq<char>,
    asked: ServiceRequest,
)
    requires
        payload@ == messages::frame_of(agent, request_id, visitor).payload,
        asks_service(asked, target, payload),
    ensures
        asked.url@ == target + visitor.uri@,
        http::is_token(visitor.method@) ==> asked.method@ == visitor.method@,
        http::header_map(asked.headers@, asked.headers@.len()) == http::shown_headers(
            visitor.headers@,
            visitor.headers@.len(),
        ),
        asked.body is Some ==> asked.body->0@ == visitor.body@,
        asked.body is None ==> visitor.body@.len() == 0,
{
}

/// The answer of a service arrives at the visitor: with the same status code, the same
/// body, and the headers whose value has a text.
pub proof fn answers_arrive(
    status: u16,
    headers: Seq<RawHeader>,
    body: Seq<u8>,
    sent: ResponsePayload,
    got: messages::Answer,
)
    requires
        sent@ == (messages::ResponsePayloadView {
            status: status as u32,
            headers: http::shown_headers(headers, headers.len()),
            body,
        }),
        got@ == messages::answer_of(sent),
    ensures
        got.status == status,
        http::header_map(got.headers@, got.headers@.len()) == http::shown_headers(
            headers,
            headers.len(),
        ),
        got.body@ == body,
{
    assert(got@.status == status);
    assert(http::header_pairs(got.headers@) == http::header_pairs(sent.headers@));
    http::pairs_make_the_map(got.headers@, sent.headers@, got.headers@.len());
    assert(http::header_pairs(got.headers@).len() == got.headers@.len());
    assert(http::header_pairs(sent.headers@).len() == sent.headers@.len());
}

} // verus!
