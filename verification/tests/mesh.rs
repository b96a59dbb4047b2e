use openshard::http::{
    can_build, forward_headers, forward_method, forward_status, Header, RawHeader, SURE_HEADERS,
};
use openshard::mesh::agent::{
    fallback_reply, is_for_service, new_agent_name, service_reply, service_request,
};
use openshard::mesh::broker::{
    choose_agent, dispatch_request, is_float_less, let_in, list_volunteers, Broker, Dispatch,
    DispatchEvent, DispatchFailure, FrameEffect, Load,
};
use openshard::mesh::messages::{
    low_bits, request_frame, response_frame, visitor_answer, FrameKind, RequestPayload,
    ResponsePayload, VisitorRequest,
};

const SECOND: u64 = 1_000_000_000;

fn load(cpu: f32) -> Option<Load> {
    Some(Load {
        cpu_usage: cpu.to_bits(),
        memory_used: 1024,
        active_requests: 3,
        load_average: 1.5f32.to_bits(),
    })
}

fn raw(name: &str, value: &[u8]) -> RawHeader {
    RawHeader { name: name.to_string(), value: value.to_vec() }
}

fn header(name: &str, value: &str) -> Header {
    Header { name: name.to_string(), value: value.to_string() }
}

#[test]
fn methods_are_passed_on() {
    for m in ["GET", "QUERY", "M-SEARCH", "x!#$%&'*+-.^_`|~9", "AVERYLONGMETHODNAMEINDEED"] {
        assert_eq!(forward_method(m), m);
    }
    for m in ["", "a b", "a/b", "é", "a\"b", "(", "a,b", "{", "}", "\u{7f}"] {
        assert_eq!(forward_method(m), "GET");
    }
}

#[test]
fn status_codes_are_passed_on() {
    assert_eq!(forward_status(100), 100);
    assert_eq!(forward_status(999), 999);
    assert_eq!(forward_status(99), 500);
    assert_eq!(forward_status(1000), 500);
    assert_eq!(forward_status(0), 500);
}

#[test]
fn headers_are_passed_on() {
    let list = vec![
        raw("a", b"1"),
        raw("b", b"\xff"),
        raw("a", b"2\t~"),
        raw("c", b""),
        raw("d", b"x\x01"),
        raw("e", b"\x7f"),
    ];
    let forwarded = forward_headers(&list);
    assert_eq!(forwarded.len(), 2);
    assert_eq!(forwarded[0].name, "a");
    assert_eq!(forwarded[0].value, "2\t~");
    assert_eq!(forwarded[1].name, "c");
    assert_eq!(forwarded[1].value, "");
}

#[test]
fn messages_need_valid_parts() {
    assert!(can_build(200, &vec![header("Content-Type", "text/plain; é")]));
    assert!(!can_build(99, &Vec::new()));
    assert!(!can_build(200, &vec![header("", "x")]));
    assert!(!can_build(200, &vec![header("a b", "x")]));
    assert!(!can_build(200, &vec![header("a\"b", "x")]));
    assert!(!can_build(200, &vec![header("a", "x\n")]));
    assert!(!can_build(200, &vec![header("a", "x\u{7f}")]));
    assert!(can_build(200, &vec![header("a", "x\ty")]));
    assert!(can_build(200, &vec![header(&"a".repeat(65535), "x")]));
    assert!(!can_build(200, &vec![header(&"a".repeat(65536), "x")]));
}

fn many_headers(n: usize) -> Vec<Header> {
    (0..n).map(|i| header(&format!("x-{}", i), "v")).collect()
}

#[test]
fn heads_have_room_for_many_headers() {
    assert!(can_build(200, &many_headers(SURE_HEADERS)));
    assert!(!can_build(200, &many_headers(24577)));
}

#[test]
fn agents_draw_their_names() {
    let name = new_agent_name();
    assert_eq!(name.len(), 36);
    assert_eq!(name.as_bytes()[14], b'4');
    assert_ne!(name, new_agent_name());
}

#[test]
fn floats_are_ordered_by_their_bits() {
    let values = [
        0.0f32,
        -0.0,
        1.0,
        -1.0,
        15.5,
        100.0,
        f32::MIN,
        f32::MAX,
        f32::MIN_POSITIVE,
        f32::INFINITY,
        f32::NEG_INFINITY,
        f32::NAN,
        -f32::NAN,
        1e-45,
    ];
    for a in values {
        for b in values {
            assert_eq!(is_float_less(a.to_bits(), b.to_bits()), a < b);
        }
    }
}

#[test]
fn streams_open_with_a_registration() {
    assert!(let_in(Some(FrameKind::Register)).is_ok());
    assert_eq!(let_in(None).unwrap_err(), "Stream closed before REGISTER");
    for kind in [FrameKind::Heartbeat, FrameKind::Request, FrameKind::Response] {
        assert_eq!(let_in(Some(kind)).unwrap_err(), "First frame must be REGISTER");
    }
}

#[test]
fn heartbeats_refresh_agents() {
    let mut broker = Broker::new();
    broker.register("a", 7, 5);
    assert_eq!(
        broker.take_frame(FrameKind::Heartbeat, "a", "", load(15.5), 3 * SECOND),
        FrameEffect::Refreshed
    );
    assert_eq!(
        broker.take_frame(FrameKind::Heartbeat, "b", "", load(1.0), 4),
        FrameEffect::UnknownAgent
    );
    assert_eq!(
        broker.take_frame(FrameKind::Heartbeat, "a", "", None, 4),
        FrameEffect::Unreadable
    );
    assert_eq!(broker.take_frame(FrameKind::Request, "a", "", None, 4), FrameEffect::Unexpected);
    assert_eq!(broker.take_frame(FrameKind::Register, "a", "", None, 4), FrameEffect::Unexpected);
    let list = list_volunteers(&broker, 5 * SECOND - 1);
    assert_eq!(list.len(), 1);
    assert_eq!(list[0].id, "a");
    assert_eq!(list[0].last_heartbeat_seconds_ago, 1);
    assert_eq!(f32::from_bits(list[0].cpu_usage), 15.5);
    assert_eq!(list[0].memory_used, 1024);
    assert_eq!(list[0].active_requests, 3);
    assert_eq!(f32::from_bits(list[0].load_average), 1.5);
    let agents = broker.agents();
    assert_eq!(agents[0].node.channel, 7);
    assert_eq!(list_volunteers(&broker, 0)[0].last_heartbeat_seconds_ago, 0);
}

#[test]
fn agents_leave_and_are_forgotten() {
    let mut broker = Broker::new();
    broker.register("a", 1, 0);
    broker.register("b", 2, SECOND);
    broker.register("c", 3, SECOND);
    broker.disconnect("c");
    broker.disconnect("nobody");
    assert_eq!(broker.agents().len(), 2);
    broker.sweep(60 * SECOND);
    assert_eq!(broker.agents().len(), 2);
    broker.sweep(60 * SECOND + 1);
    let left = broker.agents();
    assert_eq!(left.len(), 1);
    assert_eq!(left[0].name, "b");
}

#[test]
fn the_least_busy_agent_is_chosen() {
    let mut broker = Broker::new();
    assert!(choose_agent(&broker, 0).is_none());
    for (name, channel, cpu) in [("a", 1, 50.0), ("b", 2, 10.0), ("c", 3, 30.0)] {
        broker.register(name, channel, 0);
        broker.take_frame(FrameKind::Heartbeat, name, "", load(cpu), SECOND);
    }
    assert_eq!(choose_agent(&broker, SECOND).unwrap().name, "b");
    broker.take_frame(FrameKind::Heartbeat, "c", "", load(30.0), 20 * SECOND);
    assert_eq!(choose_agent(&broker, 31 * SECOND).unwrap().name, "b");
    assert_eq!(choose_agent(&broker, 31 * SECOND + 1).unwrap().name, "c");
    assert!(choose_agent(&broker, 100 * SECOND).is_none());
}

fn broker_with_agent() -> Broker {
    let mut broker = Broker::new();
    broker.register("a", 9, 0);
    broker
}

fn visitor() -> VisitorRequest {
    VisitorRequest {
        method: "PUT".to_string(),
        uri: "/x?y=1".to_string(),
        headers: vec![raw("a", b"1"), raw("b", b"\xff"), raw("a", b"2")],
        body: vec![7, 0, 255],
    }
}

fn body_read(ticket: u64) -> DispatchEvent {
    DispatchEvent::BodyRead { ticket, request: visitor() }
}

fn decoded(status: u32, headers: Vec<Header>, body: Vec<u8>) -> DispatchEvent {
    DispatchEvent::Decoded(ResponsePayload { status, headers, body })
}

fn sending(broker: &mut Broker, id: u128, ticket: u64) -> Dispatch {
    dispatch_request(broker, 1).resume_with(body_read(ticket), broker, id, false)
}

const ID: &str = "00000000-0000-0000-0000-000000000005";

#[test]
fn requests_are_answered() {
    let mut broker = broker_with_agent();
    let dispatch = sending(&mut broker, 5, 77);
    match &dispatch {
        Dispatch::Sending { agent, frame } => {
            assert_eq!(agent.name, "a");
            assert_eq!(agent.node.channel, 9);
            assert_eq!(frame.volunteer_id, "a");
            assert_eq!(frame.request_id, ID);
            assert_eq!(frame.kind, FrameKind::Request);
            assert_eq!(frame.payload.method, "PUT");
            assert_eq!(frame.payload.uri, "/x?y=1");
            assert_eq!(frame.payload.headers.len(), 1);
            assert_eq!(frame.payload.headers[0].name, "a");
            assert_eq!(frame.payload.headers[0].value, "2");
            assert_eq!(frame.payload.body, vec![7, 0, 255]);
        }
        _ => panic!("the request is to be sent"),
    }
    let dispatch = dispatch.resume(DispatchEvent::Sent(true), &mut broker);
    assert!(matches!(dispatch, Dispatch::Waiting { .. }));
    assert_eq!(
        broker.take_frame(FrameKind::Response, "a", ID, None, 2),
        FrameEffect::Answered(77)
    );
    assert_eq!(
        broker.take_frame(FrameKind::Response, "a", ID, None, 2),
        FrameEffect::UnknownRequest
    );
    let dispatch = dispatch.resume(DispatchEvent::AnswerCame, &mut broker);
    let answer = decoded(203, vec![header("a", "b"), header("c", "d")], vec![1, 2]);
    match dispatch.resume(answer, &mut broker) {
        Dispatch::Answered(answer) => {
            assert_eq!(answer.status, 203);
            assert_eq!(answer.headers.len(), 2);
            assert_eq!(answer.headers[0].name, "a");
            assert_eq!(answer.headers[0].value, "b");
            assert_eq!(answer.headers[1].name, "c");
            assert_eq!(answer.headers[1].value, "d");
            assert_eq!(answer.body, vec![1, 2]);
        }
        _ => panic!("the request must be answered"),
    }
}

#[test]
fn request_identifiers_are_random() {
    let mut broker = broker_with_agent();
    let mut ids = Vec::new();
    for _ in 0..2 {
        match dispatch_request(&broker, 1).resume(body_read(1), &mut broker) {
            Dispatch::Sending { frame, .. } => {
                assert_eq!(frame.request_id.len(), 36);
                assert_eq!(frame.request_id.as_bytes()[14], b'4');
                ids.push(frame.request_id);
            }
            _ => panic!("the request is to be sent"),
        }
    }
    assert_ne!(ids[0], ids[1]);
}

fn failure(dispatch: Dispatch) -> (u16, String) {
    match dispatch {
        Dispatch::Failed(f) => (f.status(), f.text()),
        _ => panic!("the request must fail"),
    }
}

#[test]
fn requests_fail_in_their_ways() {
    let mut broker = Broker::new();
    assert_eq!(
        failure(dispatch_request(&broker, 1)),
        (503, "No healthy volunteers available".to_string())
    );
    broker.register("a", 9, 0);
    let unread = dispatch_request(&broker, 1).resume(DispatchEvent::BodyFailed, &mut broker);
    assert_eq!(failure(unread), (400, "Failed to read body".to_string()));
    let unsent = sending(&mut broker, 5, 1).resume(DispatchEvent::Sent(false), &mut broker);
    assert_eq!(failure(unsent), (500, "Volunteer disconnected".to_string()));
    let waiting = |b: &mut Broker| sending(b, 5, 1).resume(DispatchEvent::Sent(true), b);
    let dropped = waiting(&mut broker).resume(DispatchEvent::AnswerDropped, &mut broker);
    assert_eq!(failure(dropped), (500, "Response channel dropped".to_string()));
    let late = waiting(&mut broker).resume(DispatchEvent::TimedOut, &mut broker);
    assert_eq!(failure(late), (504, "Request timed out".to_string()));
    let decoding = |b: &mut Broker| waiting(b).resume(DispatchEvent::AnswerCame, b);
    let garbled = decoding(&mut broker).resume(DispatchEvent::DecodeFailed, &mut broker);
    assert_eq!(failure(garbled), (500, "Failed to decode response payload".to_string()));
    let odd = decoded(7, Vec::new(), Vec::new());
    assert_eq!(
        failure(decoding(&mut broker).resume(odd, &mut broker)),
        (500, "Failed to construct internal response".to_string())
    );
    let cut = decoded(65536 + 200, Vec::new(), Vec::new());
    match decoding(&mut broker).resume(cut, &mut broker) {
        Dispatch::Answered(answer) => assert_eq!(answer.status, 200),
        _ => panic!("the request must be answered"),
    }
    assert_eq!(DispatchFailure::NoAgent.status(), 503);
}

#[test]
fn failed_requests_leave_nothing_behind() {
    let mut broker = broker_with_agent();
    sending(&mut broker, 5, 1).resume(DispatchEvent::Sent(false), &mut broker);
    assert_eq!(
        broker.take_frame(FrameKind::Response, "a", ID, None, 2),
        FrameEffect::UnknownRequest
    );
    let waiting = sending(&mut broker, 5, 1).resume(DispatchEvent::Sent(true), &mut broker);
    waiting.resume(DispatchEvent::TimedOut, &mut broker);
    assert_eq!(
        broker.take_frame(FrameKind::Response, "a", ID, None, 2),
        FrameEffect::UnknownRequest
    );
}

#[test]
fn lost_answers_leave_the_other_requests_alone() {
    let mut broker = broker_with_agent();
    let first = sending(&mut broker, 5, 1).resume(DispatchEvent::Sent(true), &mut broker);
    let second = sending(&mut broker, 5, 2).resume(DispatchEvent::Sent(true), &mut broker);
    let lost = first.resume(DispatchEvent::AnswerDropped, &mut broker);
    assert_eq!(failure(lost), (500, "Response channel dropped".to_string()));
    assert_eq!(
        broker.take_frame(FrameKind::Response, "a", ID, None, 2),
        FrameEffect::Answered(2)
    );
    assert!(matches!(second, Dispatch::Waiting { .. }));
}

fn asked(method: &str, uri: &str, body: Vec<u8>) -> RequestPayload {
    RequestPayload {
        method: method.to_string(),
        uri: uri.to_string(),
        headers: vec![header("a", "b")],
        body,
    }
}

#[test]
fn agents_ask_their_service() {
    assert!(is_for_service(FrameKind::Request));
    assert!(!is_for_service(FrameKind::Response));
    let request = service_request("http://127.0.0.1:9000", asked("PUT", "/x?y", vec![1]));
    assert_eq!(request.url, "http://127.0.0.1:9000/x?y");
    assert_eq!(request.method, "PUT");
    assert_eq!(request.headers.len(), 1);
    assert_eq!(request.headers[0].name, "a");
    assert_eq!(request.headers[0].value, "b");
    assert_eq!(request.body, Some(vec![1]));
    let request = service_request("http://127.0.0.1:9000", asked("p u t", "/", Vec::new()));
    assert_eq!(request.method, "GET");
    assert_eq!(request.body, None);
    let reply = service_reply(418, &vec![raw("a", b"b"), raw("c", b"\x80")], vec![3]);
    assert_eq!(reply.status, 418);
    assert_eq!(reply.headers.len(), 1);
    assert_eq!(reply.headers[0].value, "b");
    assert_eq!(reply.body, vec![3]);
}

#[test]
fn messages_arrive_as_they_were() {
    let frame = request_frame("agent-1", ID, visitor());
    let request = service_request("http://127.0.0.1:9000", frame.payload);
    assert_eq!(request.url, "http://127.0.0.1:9000/x?y=1");
    assert_eq!(request.method, "PUT");
    assert_eq!(request.body, Some(vec![7, 0, 255]));
    let frame = response_frame("agent-1", ID, service_reply(201, &vec![raw("a", b"b")], vec![9]));
    assert_eq!(frame.volunteer_id, "agent-1");
    assert_eq!(frame.request_id, ID);
    assert_eq!(frame.kind, FrameKind::Response);
    let answer = visitor_answer(frame.payload);
    assert_eq!(answer.status, 201);
    assert_eq!(answer.headers.len(), 1);
    assert_eq!(answer.headers[0].name, "a");
    assert_eq!(answer.body, vec![9]);
    assert_eq!(low_bits(70000), 4464);
}

#[test]
fn agents_answer_for_a_service_that_is_away() {
    let reply = fallback_reply("agent-1", "refused é");
    assert_eq!(reply.status, 200);
    assert_eq!(reply.headers.len(), 1);
    assert_eq!(reply.headers[0].name, "content-type");
    assert_eq!(reply.headers[0].value, "text/plain");
    let words = "Mock Response from Volunteer Agent agent-1! (Failed proxy: refused é)";
    assert_eq!(reply.body, words.as_bytes());
}
