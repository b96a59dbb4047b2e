//! The messages that the broker and the agents exchange.
use crate::http;
use crate::http::{forward_headers, Header, RawHeader};
use vstd::prelude::*;

verus! {

/// What a frame on a stream is for.
#[derive(Clone, Copy, Debug, PartialEq, Eq, Structural)]
pub enum FrameKind {
    /// An agent says who it is.
    Register,
    /// An agent says how it is.
    Heartbeat,
    /// The broker asks.
    Request,
    /// An agent answers.
    Response,
}

// ── requests ────────────────────────────────────────────────────────────────
/// A request as a visitor makes it.
pub struct VisitorRequest {
    /// The method.
    pub method: String,
    /// What is asked for.
    pub uri: String,
    /// The headers, whose values may be any bytes.
    pub headers: Vec<RawHeader>,
    /// The body.
    pub body: Vec<u8>,
}

/// A request as it goes to an agent.
pub struct RequestPayload {
    /// The method.
    pub method: String,
    /// What is asked for.
    pub uri: String,
    /// The headers.
    pub headers: Vec<Header>,
    /// The body.
    pub body: Vec<u8>,
}

/// The value of a [`RequestPayload`].
#[verifier::ext_equal]
pub struct RequestPayloadView {
    /// The method.
    pub method: Seq<char>,
    /// What is asked for.
    pub uri: Seq<char>,
    /// The values of the headers, by their names.
    pub headers: Map<Seq<char>, Seq<char>>,
    /// The body.
    pub body: Seq<u8>,
}

impl View for RequestPayload {
    type V = RequestPayloadView;

    open spec fn view(&self) -> RequestPayloadView {
        RequestPayloadView {
            method: self.method@,
            uri: self.uri@,
            headers: http::header_map(self.headers@, self.headers@.len()),
            body: self.body@,
        }
    }
}

/// A frame that takes a request to an agent.
pub struct RequestFrame {
    /// The name of the agent.
    pub volunteer_id: String,
    /// The identifier of the request.
    pub request_id: String,
    /// What the frame is for.
    pub kind: FrameKind,
    /// The request.
    pub payload: RequestPayload,
}

/// The value of a [`RequestFrame`].
#[verifier::ext_equal]
pub struct RequestFrameView {
    /// The name of the agent.
    pub volunteer_id: Seq<char>,
    /// The identifier of the request.
    pub request_id: Seq<char>,
    /// What the frame is for.
    pub kind: FrameKind,
    /// The request.
    pub payload: RequestPayloadView,
}

impl View for RequestFrame {
    type V = RequestFrameView;

    open spec fn view(&self) -> RequestFrameView {
        RequestFrameView {
            volunteer_id: self.volunteer_id@,
            request_id: self.request_id@,
            kind: self.kind,
            payload: self.payload@,
        }
    }
}

/// What goes to an agent of a visitor's request: the same method, the same words asked
/// for and the same body, and of the headers those whose value has a text.
pub open spec fn payload_of(request: VisitorRequest) -> RequestPayloadView {
    RequestPayloadView {
        method: request.method@,
        uri: request.uri@,
        headers: http::shown_headers(request.headers@, request.headers@.len()),
        body: request.body@,
    }
}

/// The frame that takes a visitor's request to an agent.
pub open spec fn frame_of(
    agent: Seq<char>,
    request_id: Seq<char>,
    request: VisitorRequest,
) -> RequestFrameView {
    RequestFrameView {
        volunteer_id: agent,
        request_id,
        kind: FrameKind::Request,
        payload: payload_of(request),
    }
}

/// Makes the frame that takes a visitor's request to an agent.
pub fn request_frame(agent: &str, request_id: &str, request: VisitorRequest) -> (frame:
    RequestFrame)
    ensures
        frame@ == frame_of(agent@, request_id@, request),
{
    let headers = forward_headers(&request.headers);
    let payload = RequestPayload {
        method: request.method,
        uri: request.uri,
        headers,
        body: request.body,
    };
    RequestFrame {
        volunteer_id: agent.to_owned(),
        request_id: request_id.to_owned(),
        kind: FrameKind::Request,
        payload,
    }
}

// ── answers ─────────────────────────────────────────────────────────────────
/// An answer as it comes from an agent.
pub struct ResponsePayload {
    /// The status code.
    pub status: u32,
    /// The headers.
    pub headers: Vec<Header>,
    /// The body.
    pub body: Vec<u8>,
}

/// The value of a [`ResponsePayload`].
#[verifier::ext_equal]
pub struct ResponsePayloadView {
    /// The status code.
    pub status: u32,
    /// The values of the headers, by their names.
    pub headers: Map<Seq<char>, Seq<char>>,
    /// The body.
    pub body: Seq<u8>,
}

impl View for ResponsePayload {
    type V = ResponsePayloadView;

    open spec fn view(&self) -> ResponsePayloadView {
        ResponsePayloadView {
            status: self.status,
            headers: http::header_map(self.headers@, self.headers@.len()),
            body: self.body@,
        }
    }
}

/// A frame that takes an answer to the broker.
pub struct ResponseFrame {
    /// The name of the agent.
    pub volunteer_id: String,
    /// The identifier of the request.
    pub request_id: String,
    /// What the frame is for.
    pub kind: FrameKind,
    /// The answer.
    pub payload: ResponsePayload,
}

/// The value of a [`ResponseFrame`].
#[verifier::ext_equal]
pub struct ResponseFrameView {
    /// The name of the agent.
    pub volunteer_id: Seq<char>,
    /// The identifier of the request.
    pub request_id: Seq<char>,
    /// What the frame is for.
    pub kind: FrameKind,
    /// The answer.
    pub payload: ResponsePayloadView,
}

impl View for ResponseFrame {
    type V = ResponseFrameView;

    open spec fn view(&self) -> ResponseFrameView {
        ResponseFrameView {
            volunteer_id: self.volunteer_id@,
            request_id: self.request_id@,
            kind: self.kind,
            payload: self.payload@,
        }
    }
}

/// Makes the frame that takes an agent's answer to the broker.
pub fn response_frame(agent: &str, request_id: &str, payload: ResponsePayload) -> (frame:
    ResponseFrame)
    ensures
        frame@ == (ResponseFrameView {
            volunteer_id: agent@,
            request_id: request_id@,
            kind: FrameKind::Response,
            payload: payload@,
        }),
{
    ResponseFrame {
        volunteer_id: agent.to_owned(),
        request_id: request_id.to_owned(),
        kind: FrameKind::Response,
        payload,
    }
}

/// An answer as a visitor gets it.
#[derive(Debug)]
pub struct Answer {
    /// The status code.
    pub status: u16,
    /// The headers, in the order in which they are written.
    pub headers: Vec<Header>,
    /// The body.
    pub body: Vec<u8>,
}

/// The value of an [`Answer`].
#[verifier::ext_equal]
pub struct AnswerView {
    /// The status code.
    pub status: u16,
    /// The names and values of the headers.
    pub headers: Seq<(Seq<char>, Seq<char>)>,
    /// The body.
    pub body: Seq<u8>,
}

impl View for Answer {
    type V = AnswerView;

    open spec fn view(&self) -> AnswerView {
        AnswerView {
            status: self.status,
            headers: http::header_pairs(self.headers@),
            body: self.body@,
        }
    }
}

/// The status code that a number stands for: its lower sixteen bits.
pub open spec fn status_bits(status: u32) -> u16 {
    (status % 0x1_0000) as u16
}

/// The status code that a number stands for: its lower sixteen bits.
pub fn low_bits(status: u32) -> (code: u16)
    ensures
        code == status_bits(status),
{
    (status % 0x1_0000) as u16
}

/// What a visitor gets of an agent's answer: its status code, and its headers and its
/// body as they came.
pub open spec fn answer_of(payload: ResponsePayload) -> AnswerView {
    AnswerView {
        status: status_bits(payload.status),
        headers: http::header_pairs(payload.headers@),
        body: payload.body@,
    }
}

/// Makes what a visitor gets of an agent's answer.
pub fn visitor_answer(payload: ResponsePayload) -> (answer: Answer)
    ensures
        answer@ == answer_of(payload),
{
    Answer { status: low_bits(payload.status), headers: payload.headers, body: payload.body }
}

} // verus!
