use openshard::proto::{
    decode, decode_handshake, encode, encode_handshake, FRAME_LEN, TAG_CLOSE, TAG_DATA_PORT,
    TAG_OPEN, TAG_PING, TAG_PONG,
};
use openshard::tunnel::client::{
    local_service_addr, on_frame, stream_bytes, ClientAction, ClientEvent, ClientStage, FrameAction,
};
use openshard::tunnel::server::{
    allocate_port, release_port, AcceptAction, AcceptEvent, AcceptStage, Acceptor, Pending,
    PortPool, PortSearch, Session, SessionAction, SessionEvent, CONTROL_PORT, PING_INTERVAL_NS, PORT_RANGE_END, PORT_RANGE_START,
};

#[test]
fn frames() {
    assert_eq!(FRAME_LEN, 3);
    assert_eq!(encode(TAG_OPEN, 0x1234), [0x03, 0x12, 0x34]);
    assert_eq!(decode(&[0x04, 0xff, 0x00]), (TAG_CLOSE, 0xff00));
    for tag in [TAG_PING, TAG_PONG, TAG_OPEN, TAG_CLOSE, TAG_DATA_PORT, 0xff] {
        for id in [0u16, 1, 255, 256, 65535] {
            assert_eq!(decode(&encode(tag, id)), (tag, id));
        }
    }
}

#[test]
fn handshakes() {
    assert_eq!(encode_handshake(30000, 30001), [0x75, 0x30, 0x75, 0x31]);
    assert_eq!(decode_handshake(&[0x75, 0x30, 0x75, 0x31]), (30000, 30001));
    assert_eq!(decode_handshake(&encode_handshake(65535, 0)), (65535, 0));
}

#[test]
fn ports_are_tried_in_order() {
    let mut pool = PortPool::new();
    assert_eq!(CONTROL_PORT, 9007);
    assert_eq!(pool.candidate(None), Some(PORT_RANGE_START));
    pool.take_port(30000);
    pool.take_port(30002);
    assert_eq!(pool.candidate(None), Some(30001));
    assert_eq!(pool.candidate(Some(30001)), Some(30003));
    assert_eq!(pool.candidate(Some(PORT_RANGE_END - 1)), Some(PORT_RANGE_END));
    assert_eq!(pool.candidate(Some(PORT_RANGE_END)), None);
    assert_eq!(pool.candidate(Some(65535)), None);
    assert_eq!(pool.candidate(Some(5)), Some(30001));
    release_port(&mut pool, 30000);
    assert_eq!(pool.candidate(None), Some(30000));
}

fn search(pool: &mut PortPool, can_bind: &[u16]) -> PortSearch {
    let mut search = allocate_port(pool);
    while let PortSearch::Trying(port) = search {
        assert_eq!(search.event(), None);
        search = search.resume(can_bind.contains(&port), pool);
    }
    search
}

#[test]
fn searches_take_the_first_port_that_can_be_bound() {
    let mut pool = PortPool::new();
    assert_eq!(search(&mut pool, &[30004, 30002, 9]), PortSearch::Found(30002));
    assert_eq!(search(&mut pool, &[30004, 30002, 9]), PortSearch::Found(30004));
    let none = search(&mut pool, &[30004, 30002, 9]);
    assert_eq!(none, PortSearch::Exhausted);
    assert_eq!(none.event(), Some(SessionEvent::Allocated(None)));
    assert_eq!(none.resume(true, &mut pool), PortSearch::Exhausted);
    release_port(&mut pool, 30004);
    let found = search(&mut pool, &[PORT_RANGE_END, 30004]);
    assert_eq!(found.event(), Some(SessionEvent::Allocated(Some(30004))));
    assert_eq!(search(&mut pool, &[PORT_RANGE_END, 30004]), PortSearch::Found(PORT_RANGE_END));
    assert_eq!(pool.candidate(None), Some(30000));
}

#[test]
fn pools_run_out() {
    let mut pool = PortPool::new();
    let mut taken = 0;
    while let Some(port) = pool.candidate(None) {
        pool.take_port(port);
        taken += 1;
    }
    assert_eq!(taken, 1001);
}

fn allocate(pool: &mut PortPool) -> SessionEvent {
    allocate_port(pool).resume(true, pool).event().unwrap()
}

#[test]
fn sessions_free_their_ports() {
    let endings: [&[SessionEvent]; 3] = [
        &[SessionEvent::Greeted(false)],
        &[SessionEvent::Greeted(true), SessionEvent::Split(false)],
        &[SessionEvent::Greeted(true), SessionEvent::Split(true), SessionEvent::Stopped],
    ];
    for events in endings {
        let mut pool = PortPool::new();
        let mut session = Session::NeedPublic;
        assert_eq!(session.action(), SessionAction::Allocate);
        for _ in 0..2 {
            let event = allocate(&mut pool);
            session = session.resume(event, &mut pool);
        }
        assert_eq!(session, Session::Greeting { public: 30000, data: 30001 });
        assert_eq!(session.action(), SessionAction::Greet([0x75, 0x30, 0x75, 0x31]));
        assert_eq!(pool.candidate(None), Some(30002));
        for event in events {
            session = session.resume(*event, &mut pool);
        }
        assert_eq!(session, Session::Ended);
        assert_eq!(session.action(), SessionAction::Finish);
        assert_eq!(pool.candidate(None), Some(30000));
        assert_eq!(pool.candidate(Some(30000)), Some(30001));
    }
}

#[test]
fn sessions_without_ports_end() {
    let mut pool = PortPool::new();
    let session = Session::NeedPublic.resume(SessionEvent::Allocated(None), &mut pool);
    assert_eq!(session, Session::Ended);
    let event = allocate(&mut pool);
    let session = Session::NeedPublic.resume(event, &mut pool);
    assert_eq!(session, Session::NeedData { public: 30000 });
    let session = session.resume(SessionEvent::Allocated(None), &mut pool);
    assert_eq!(session, Session::Ended);
    assert_eq!(pool.candidate(None), Some(30000));
    let stuck = Session::NeedPublic.resume(SessionEvent::Stopped, &mut pool);
    assert_eq!(stuck, Session::NeedPublic);
}

#[test]
fn serving_sessions_split_first() {
    let mut pool = PortPool::new();
    let session = Session::Greeting { public: 1, data: 2 }
        .resume(SessionEvent::Greeted(true), &mut pool);
    assert_eq!(session.action(), SessionAction::Split);
    let session = session.resume(SessionEvent::Split(true), &mut pool);
    assert_eq!(session.action(), SessionAction::Serve);
}

#[test]
fn visitors_wait_for_their_streams() {
    let mut pending: Pending<&str> = Pending::new();
    pending.add_visitor(0x0102, "a");
    pending.add_visitor(7, "b");
    pending.add_visitor(8, "c");
    assert_eq!(pending.claim_bytes(&[1, 2]), Some("a"));
    assert_eq!(pending.claim_bytes(&[1, 2]), None);
    assert_eq!(pending.take_frame(&encode(TAG_PONG, 7)), None);
    assert_eq!(pending.take_frame(&encode(TAG_CLOSE, 7)), None);
    assert_eq!(pending.take_frame(&encode(TAG_OPEN, 8)), Some(TAG_OPEN));
    assert_eq!(pending.claim(7), None);
    assert_eq!(pending.claim(8), Some("c"));
}

#[test]
fn visitors_are_announced_in_order() {
    let mut pending: Pending<u16> = Pending::new();
    let mut acceptor = Acceptor::new(0);
    for expected in [0u16, 1, 2] {
        assert_eq!(acceptor.action(), AcceptAction::Check);
        acceptor = acceptor.resume(AcceptEvent::Clock(5), &mut pending);
        assert_eq!(acceptor.action(), AcceptAction::Accept);
        acceptor = acceptor.resume(AcceptEvent::Visitor(100 + expected), &mut pending);
        assert_eq!(acceptor.stage, AcceptStage::Opening(expected));
        assert_eq!(acceptor.action(), AcceptAction::Send(encode(TAG_OPEN, expected)));
        acceptor = acceptor.resume(AcceptEvent::Sent(Some(6)), &mut pending);
    }
    for expected in [0u16, 1, 2] {
        assert_eq!(pending.claim(expected), Some(100 + expected));
    }
    let last = Acceptor { next_stream: 65535, last_ping: 0, stage: AcceptStage::Accepting };
    let last = last.resume(AcceptEvent::Visitor(7), &mut pending);
    assert_eq!(last.stage, AcceptStage::Opening(65535));
    assert_eq!(last.next_stream, 0);
    assert_eq!(pending.claim(65535), Some(7));
}

#[test]
fn visitors_wait_before_they_are_announced() {
    let mut pending: Pending<&str> = Pending::new();
    let checking = Acceptor::new(0);
    assert_eq!(checking.resume(AcceptEvent::Visitor("early"), &mut pending), checking);
    assert_eq!(pending.claim(0), None);
    let accepting = checking.resume(AcceptEvent::Clock(1), &mut pending);
    let opening = accepting.resume(AcceptEvent::Visitor("in time"), &mut pending);
    assert_eq!(opening.action(), AcceptAction::Send(encode(TAG_OPEN, 0)));
    assert_eq!(pending.claim(0), Some("in time"));
    let ended = opening.resume(AcceptEvent::Sent(None), &mut pending);
    assert_eq!(ended.action(), AcceptAction::Finish);
    assert_eq!(ended.resume(AcceptEvent::Visitor("late"), &mut pending), ended);
    assert_eq!(pending.claim(1), None);
}

#[test]
fn keepalive_requests_are_sent_in_time() {
    let mut pending: Pending<()> = Pending::new();
    let acceptor = Acceptor::new(100);
    let early = acceptor.resume(AcceptEvent::Clock(100 + PING_INTERVAL_NS - 1), &mut pending);
    assert_eq!(early.action(), AcceptAction::Accept);
    assert_eq!(acceptor.resume(AcceptEvent::Clock(0), &mut pending).action(), AcceptAction::Accept);
    let due = acceptor.resume(AcceptEvent::Clock(100 + PING_INTERVAL_NS), &mut pending);
    assert_eq!(due.action(), AcceptAction::Send(encode(TAG_PING, 0)));
    let sent = due.resume(AcceptEvent::Sent(Some(777)), &mut pending);
    assert_eq!(sent.last_ping, 777);
    assert_eq!(sent.action(), AcceptAction::Accept);
    assert_eq!(due.resume(AcceptEvent::Sent(None), &mut pending).action(), AcceptAction::Finish);
}

#[test]
fn the_accepting_loop_pauses_and_ends() {
    let mut pending: Pending<()> = Pending::new();
    let accepting = Acceptor::new(0).resume(AcceptEvent::Clock(1), &mut pending);
    let pausing = accepting.resume(AcceptEvent::Nobody, &mut pending);
    assert_eq!(pausing.action(), AcceptAction::Pause(50));
    assert_eq!(pausing.resume(AcceptEvent::Paused, &mut pending).action(), AcceptAction::Check);
    assert_eq!(accepting.resume(AcceptEvent::Broken, &mut pending).action(), AcceptAction::Finish);
    let opening = accepting.resume(AcceptEvent::Visitor(()), &mut pending);
    assert_eq!(opening.resume(AcceptEvent::Sent(None), &mut pending).action(), AcceptAction::Finish);
    assert_eq!(opening.resume(AcceptEvent::Paused, &mut pending), opening);
}

#[test]
fn visitors_are_found_by_what_they_were_announced_by() {
    let mut pending: Pending<&str> = Pending::new();
    let accepting = Acceptor { next_stream: 513, ..Acceptor::new(0) }
        .resume(AcceptEvent::Clock(1), &mut pending);
    let opening = accepting.resume(AcceptEvent::Visitor("visitor"), &mut pending);
    pending.add_visitor(258, "another");
    let frame = match opening.action() {
        AcceptAction::Send(frame) => frame,
        _ => panic!("the visitor is to be announced"),
    };
    match on_frame(&frame) {
        FrameAction::Open(id) => {
            assert_eq!(pending.claim_bytes(&stream_bytes(id)), Some("visitor"));
            assert_eq!(pending.claim_bytes(&stream_bytes(id)), None);
        }
        _ => panic!("a data connection is to be opened"),
    }
}

#[test]
fn the_client_answers_frames() {
    assert_eq!(on_frame(&encode(TAG_PING, 9)), FrameAction::Reply(encode(TAG_PONG, 0)));
    assert_eq!(on_frame(&encode(TAG_OPEN, 9)), FrameAction::Open(9));
    assert_eq!(on_frame(&encode(TAG_CLOSE, 9)), FrameAction::Closed(9));
    assert_eq!(on_frame(&encode(TAG_DATA_PORT, 9)), FrameAction::Ignore(TAG_DATA_PORT));
    assert_eq!(stream_bytes(0x0102), [1, 2]);
}

#[test]
fn the_local_service_is_found() {
    let some = |s: &str| Some(s.to_string());
    assert_eq!(local_service_addr(some(" a:1\n"), some("b:2")), "a:1");
    assert_eq!(local_service_addr(some(" \t"), some("b:2\n")), "b:2");
    assert_eq!(local_service_addr(None, some("b:2")), "b:2");
    assert_eq!(local_service_addr(None, some("")), "127.0.0.1:8080");
    assert_eq!(local_service_addr(None, None), "127.0.0.1:8080");
}

fn publishes(stage: ClientStage) -> String {
    match stage.action() {
        ClientAction::WritePort(words) => words,
        _ => panic!("no port is to be written"),
    }
}

#[test]
fn the_client_loops() {
    let stage = ClientStage::Connecting;
    assert!(matches!(stage.action(), ClientAction::Connect));
    let stage = stage.resume(ClientEvent::Connected(true));
    assert!(matches!(stage.action(), ClientAction::ReadHandshake));
    let stage = stage.resume(ClientEvent::Handshake(Some(encode_handshake(30000, 30001))));
    assert_eq!(publishes(stage), "30000");
    let stage = stage.resume(ClientEvent::PortWritten(true));
    assert!(matches!(stage.action(), ClientAction::Serve(30001)));
    let stage = stage.resume(ClientEvent::SessionOver);
    assert!(matches!(stage.action(), ClientAction::RemovePort));
    let stage = stage.resume(ClientEvent::PortRemoved);
    assert!(matches!(stage.action(), ClientAction::Wait(5)));
    assert_eq!(stage.resume(ClientEvent::Waited), ClientStage::Connecting);
}

#[test]
fn the_client_tries_again() {
    assert_eq!(ClientStage::Connecting.resume(ClientEvent::Connected(false)), ClientStage::Waiting);
    assert_eq!(ClientStage::Greeting.resume(ClientEvent::Handshake(None)), ClientStage::Waiting);
    let publishing = ClientStage::Publishing { public: 1, data: 2 };
    assert_eq!(publishing.resume(ClientEvent::PortWritten(false)), ClientStage::Waiting);
    assert_eq!(publishing.resume(ClientEvent::Waited), publishing);
}
