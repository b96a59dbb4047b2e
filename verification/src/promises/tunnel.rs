//! The tunnel: its frames, its ports, its sessions and its visitors.
use crate::proto;
use crate::text;
use crate::tunnel::client;
use crate::tunnel::client::{ClientAction, ClientEvent, ClientStage, FrameAction};
use crate::tunnel::server;
use crate::tunnel::server::{
    AcceptAction, AcceptEvent, AcceptStage, Acceptor, Pending, PortPool, PortSearch, Session,
    SessionAction, SessionEvent,
};
use vstd::prelude::*;

verus! {

// ── frames ──────────────────────────────────────────────────────────────────
/// A frame is a tag and the number of a stream, the larger part of it first.
pub proof fn frames_are_a_tag_and_a_number(tag: u8, stream_id: u16, frame: [u8; 3])
    requires
        call_ensures(proto::encode, (tag, stream_id), frame),
    ensures
        frame@.len() == 3,
        frame@[0] == tag,
        frame@[1] == stream_id / 256,
        frame@[2] == stream_id % 256,
{
}

/// A frame is read as its tag and its number.
pub proof fn frames_are_read(bytes: [u8; 3], read: (u8, u16))
    requires
        call_ensures(proto::decode, (&bytes,), read),
    ensures
        read.0 == bytes@[0],
        read.1 == bytes@[1] * 256 + bytes@[2],
{
}

/// The message that opens a session is the public port and then the data port, the
/// larger part of each first.
pub proof fn handshakes_are_two_ports(public: u16, data: u16, bytes: [u8; 4])
    requires
        call_ensures(proto::encode_handshake, (public, data), bytes),
    ensures
        bytes@.len() == 4,
        bytes@[0] == public / 256,
        bytes@[1] == public % 256,
        bytes@[2] == data / 256,
        bytes@[3] == data % 256,
{
}

/// The message that opens a session is read as the public port and the data port.
pub proof fn handshakes_are_read(bytes: [u8; 4], ports: (u16, u16))
    requires
        call_ensures(proto::decode_handshake, (&bytes,), ports),
    ensures
        ports.0 == bytes@[0] * 256 + bytes@[1],
        ports.1 == bytes@[2] * 256 + bytes@[3],
{
}

/// A number is written with its larger part first, and read so.
pub proof fn numbers_have_their_larger_part_first(
    n: u16,
    bytes: (u8, u8),
    hi: u8,
    lo: u8,
    read: u16,
    first: [u8; 2],
)
    requires
        call_ensures(proto::to_big_endian, (n,), bytes),
        call_ensures(proto::from_big_endian, (hi, lo), read),
        call_ensures(client::stream_bytes, (n,), first),
    ensures
        bytes.0 == n / 256,
        bytes.1 == n % 256,
        read == hi * 256 + lo,
        first@[0] == n / 256,
        first@[1] == n % 256,
{
}

/// The tags of frames, and the sizes and ports that both sides know.
pub proof fn both_sides_know_these()
    ensures
        proto::TAG_PING == 1,
        proto::TAG_PONG == 2,
        proto::TAG_OPEN == 3,
        proto::TAG_CLOSE == 4,
        proto::TAG_DATA_PORT == 5,
        proto::FRAME_LEN == 3,
        proto::HANDSHAKE_LEN == 4,
        server::CONTROL_PORT == 9007,
        server::PORT_RANGE_START == 30000,
        server::PORT_RANGE_END == 31000,
        server::PING_INTERVAL_NS == 10_000_000_000,
        server::DATA_ACCEPT_TIMEOUT_SECS == 10,
        server::ACCEPT_PAUSE_MS == 50,
        client::RECONNECT_DELAY_SECS == 5,
{
}

// ── ports ───────────────────────────────────────────────────────────────────
/// The port that is tried next is the smallest one from 30000 to 31000 that is not in use
/// and comes after the one that was tried last.
pub proof fn the_smallest_free_port_is_tried(
    pool: PortPool,
    tried: Option<u16>,
    port: Option<u16>,
    q: u16,
)
    requires
        call_ensures(PortPool::candidate, (&pool, tried), port),
    ensures
        port matches Some(p) ==> 30000 <= p <= 31000 && !pool@.contains(p) && (tried is Some
            ==> tried->0 < p),
        30000 <= q <= 31000 && !pool@.contains(q) && (tried is Some ==> tried->0 < q)
            ==> port is Some && port->0 <= q,
{
    lemma_from(tried);
    server::first_free_is_the_smallest(pool@, server::next_to_try(tried));
    if 30000 <= q <= 31000 && !pool@.contains(q) {
        assert(server::is_free(pool@, q));
    }
}

proof fn lemma_from(tried: Option<u16>)
    ensures
        30000 <= server::next_to_try(tried),
        tried is None ==> server::next_to_try(tried) == 30000,
        tried matches Some(t) ==> t >= 30000 ==> server::next_to_try(tried) == t + 1,
        tried matches Some(t) ==> t < 30000 ==> server::next_to_try(tried) == 30000,
{
}

/// A search for a port starts with the smallest one that is not in use, and is over at
/// once where none is left.
pub proof fn searches_start_with_the_smallest(pool: PortPool, search: PortSearch, q: u16)
    requires
        call_ensures(server::allocate_port, (&pool,), search),
    ensures
        !(search is Found),
        search matches PortSearch::Trying(p) ==> 30000 <= p <= 31000 && !pool@.contains(p),
        30000 <= q <= 31000 && !pool@.contains(q) ==> search is Trying && search->Trying_0 <= q,
{
    server::first_free_is_the_smallest(pool@, 30000);
    if 30000 <= q <= 31000 && !pool@.contains(q) {
        assert(server::is_free(pool@, q));
    }
}

/// A port that can be bound is found, and in use from then on. One that cannot be bound
/// stays free, and the search goes on with the smallest larger one that is not in use. A
/// search that is over stays over and takes nothing.
pub proof fn searches_take_what_can_be_bound(
    search: PortSearch,
    bound: bool,
    used: Set<u16>,
    q: u16,
)
    ensures
        ({
            let next = search.after(bound, used);
            let after = search.used_after(bound, used);
            &&& search matches PortSearch::Trying(p) ==> {
                &&& bound ==> next == PortSearch::Found(p) && after == used.insert(p)
                &&& !bound ==> after == used && !(next is Found)
                &&& !bound && next is Trying ==> p < next->Trying_0 && 30000 <= next->Trying_0
                    <= 31000 && !used.contains(next->Trying_0)
                &&& !bound && p < q && 30000 <= q <= 31000 && !used.contains(q) ==> next is Trying
                    && next->Trying_0 <= q
            }
            &&& !(search is Trying) ==> next == search && after == used
        }),
{
    if let PortSearch::Trying(p) = search {
        lemma_from(Some(p));
        server::first_free_is_the_smallest(used, server::next_to_try(Some(p)));
        if 30000 <= q <= 31000 && !used.contains(q) {
            assert(server::is_free(used, q));
        }
    }
}

/// A port that is taken is in use, one that is given back is not, and no other is touched.
pub proof fn ports_are_taken_and_given_back(
    pool: &mut PortPool,
    back: &mut PortPool,
    port: u16,
    other: u16,
)
    requires
        call_ensures(PortPool::take_port, (pool, port), ()),
        call_ensures(server::release_port, (back, port), ()),
    ensures
        final(pool)@.contains(port),
        !final(back)@.contains(port),
        other != port ==> final(pool)@.contains(other) == old(pool)@.contains(other),
        other != port ==> final(back)@.contains(other) == old(back)@.contains(other),
{
}

// ── sessions ────────────────────────────────────────────────────────────────
/// A session gets its public port, then its data port, greets the client with both, then
/// serves; it ends where a port cannot be had, where the client cannot be greeted or its
/// connection cannot be split, and when serving stops.
pub proof fn sessions_go_step_by_step(p: u16, q: u16)
    ensures
        Session::NeedPublic.after(SessionEvent::Allocated(Some(p))) == (Session::NeedData {
            public: p,
        }),
        Session::NeedPublic.after(SessionEvent::Allocated(None)) is Ended,
        (Session::NeedData { public: p }).after(SessionEvent::Allocated(Some(q))) == (
        Session::Greeting { public: p, data: q }),
        (Session::NeedData { public: p }).after(SessionEvent::Allocated(None)) is Ended,
        (Session::Greeting { public: p, data: q }).after(SessionEvent::Greeted(true)) == (
        Session::Splitting { public: p, data: q }),
        (Session::Greeting { public: p, data: q }).after(SessionEvent::Greeted(false)) is Ended,
        (Session::Splitting { public: p, data: q }).after(SessionEvent::Split(true)) == (
        Session::Serving { public: p, data: q }),
        (Session::Splitting { public: p, data: q }).after(SessionEvent::Split(false)) is Ended,
        (Session::Serving { public: p, data: q }).after(SessionEvent::Stopped) is Ended,
{
}

/// A session that has ended stays so, and an event that does not fit changes nothing.
pub proof fn sessions_heed_only_what_fits(p: u16, q: u16, event: SessionEvent)
    ensures
        Session::Ended.after(event) is Ended,
        !(event is Allocated) ==> Session::NeedPublic.after(event) is NeedPublic && (
        Session::NeedData { public: p }).after(event) == (Session::NeedData { public: p }),
        !(event is Greeted) ==> (Session::Greeting { public: p, data: q }).after(event) == (
        Session::Greeting { public: p, data: q }),
        !(event is Split) ==> (Session::Splitting { public: p, data: q }).after(event) == (
        Session::Splitting { public: p, data: q }),
        !(event is Stopped) ==> (Session::Serving { public: p, data: q }).after(event) == (
        Session::Serving { public: p, data: q }),
{
}

/// A session holds the ports that it got and no others, and none once it has ended.
pub proof fn sessions_hold_their_ports(p: u16, q: u16, port: u16)
    ensures
        !Session::NeedPublic.held().contains(port),
        (Session::NeedData { public: p }).held().contains(port) <==> port == p,
        (Session::Greeting { public: p, data: q }).held().contains(port) <==> port == p || port
            == q,
        (Session::Splitting { public: p, data: q }).held().contains(port) <==> port == p || port
            == q,
        (Session::Serving { public: p, data: q }).held().contains(port) <==> port == p || port
            == q,
        !Session::Ended.held().contains(port),
{
}

/// A session that ends while it serves gives both of its ports back, and no other port. As
/// long as it does not end, no port is given back.
pub proof fn ended_sessions_give_their_ports_back(
    session: Session,
    event: SessionEvent,
    pool: &mut PortPool,
    next: Session,
    p: u16,
    q: u16,
    other: u16,
)
    requires
        call_ensures(Session::resume, (session, event, pool), next),
        session == (Session::Serving { public: p, data: q }) || session == (Session::Splitting {
            public: p,
            data: q,
        }) || session == (Session::Greeting { public: p, data: q }),
    ensures
        next == session.after(event),
        next is Ended ==> !final(pool)@.contains(p) && !final(pool)@.contains(q),
        next is Ended && other != p && other != q ==> final(pool)@.contains(other) == old(
            pool,
        )@.contains(other),
        !(next is Ended) ==> final(pool)@ == old(pool)@,
{
    sessions_hold_their_ports(p, q, other);
    sessions_hold_their_ports(p, q, p);
    sessions_hold_their_ports(p, q, q);
}

/// The client is greeted with the two ports of its session.
pub proof fn clients_are_told_their_ports(session: Session, action: SessionAction, p: u16, q: u16)
    requires
        call_ensures(Session::action, (&session,), action),
        session == (Session::Greeting { public: p, data: q }),
    ensures
        action matches SessionAction::Greet(bytes) && bytes@[0] * 256 + bytes@[1] == p && bytes@[2]
            * 256 + bytes@[3] == q,
{
}

// ── visitors ────────────────────────────────────────────────────────────────
/// Visitors get the numbers of streams one after the other, from the highest back to
/// zero, and wait under the number that is announced for them.
pub proof fn visitors_get_the_next_number<V>(
    acceptor: Acceptor,
    visitor: V,
    pending: Map<u16, V>,
    other: u16,
)
    requires
        acceptor.stage is Accepting,
    ensures
        ({
            let event = AcceptEvent::Visitor(visitor);
            let next = acceptor.after(event);
            let waiting = acceptor.pending_after(event, pending);
            &&& next.stage == AcceptStage::Opening(acceptor.next_stream)
            &&& acceptor.next_stream < 65535 ==> next.next_stream == acceptor.next_stream + 1
            &&& acceptor.next_stream == 65535 ==> next.next_stream == 0
            &&& next.last_ping == acceptor.last_ping
            &&& waiting.contains_key(acceptor.next_stream)
            &&& waiting[acceptor.next_stream] == visitor
            &&& other != acceptor.next_stream ==> waiting.contains_key(other)
                == pending.contains_key(other) && waiting[other] == pending[other]
        }),
{
}

/// A ping is sent once ten seconds have passed since the last one, and not before; then,
/// or where none is due, visitors are looked for.
pub proof fn pings_are_sent_every_ten_seconds<V>(acceptor: Acceptor, now: u64)
    requires
        acceptor.stage is Checking,
    ensures
        ({
            let next = acceptor.after(AcceptEvent::<V>::Clock(now));
            &&& next.stage is Pinging <==> now >= acceptor.last_ping + 10_000_000_000
            &&& next.stage is Accepting <==> now < acceptor.last_ping + 10_000_000_000
            &&& next.next_stream == acceptor.next_stream
            &&& next.last_ping == acceptor.last_ping
        }),
{
}

/// What follows when a frame was written, when nobody came and when a pause is over. A
/// ping counts from when it was written. Only a visitor adds to those that wait.
pub proof fn acceptors_go_round<V>(
    acceptor: Acceptor,
    now: u64,
    event: AcceptEvent<V>,
    pending: Map<u16, V>,
)
    ensures
        acceptor.stage is Pinging ==> {
            let next = acceptor.after(AcceptEvent::<V>::Sent(Some(now)));
            next.stage is Accepting && next.last_ping == now && next.next_stream
                == acceptor.next_stream
        },
        acceptor.stage is Opening ==> {
            let next = acceptor.after(AcceptEvent::<V>::Sent(Some(now)));
            next.stage is Checking && next.last_ping == acceptor.last_ping && next.next_stream
                == acceptor.next_stream
        },
        acceptor.stage is Accepting ==> acceptor.after(AcceptEvent::<V>::Nobody).stage is Pausing
            && acceptor.after(AcceptEvent::<V>::Broken).stage is Ended,
        acceptor.stage is Pausing ==> acceptor.after(AcceptEvent::<V>::Paused).stage is Checking,
        !(event is Visitor) ==> acceptor.pending_after(event, pending) == pending && acceptor.after(
            event,
        ).next_stream == acceptor.next_stream,
        !(acceptor.stage is Accepting) ==> acceptor.pending_after(event, pending) == pending,
{
}

/// An event that does not fit its stage leaves the server as it is.
pub proof fn acceptors_heed_only_what_fits<V>(acceptor: Acceptor, event: AcceptEvent<V>)
    ensures
        acceptor.stage is Checking && !(event is Clock) ==> acceptor.after(event) == acceptor,
        acceptor.stage is Pinging && !(event is Sent) ==> acceptor.after(event) == acceptor,
        acceptor.stage is Accepting && !(event is Visitor || event is Nobody || event is Broken)
            ==> acceptor.after(event) == acceptor,
        acceptor.stage is Opening && !(event is Sent) ==> acceptor.after(event) == acceptor,
        acceptor.stage is Pausing && !(event is Paused) ==> acceptor.after(event) == acceptor,
        acceptor.stage is Ended ==> acceptor.after(event) == acceptor,
        !(acceptor.stage is Pinging) ==> acceptor.after(event).last_ping == acceptor.last_ping,
{
}

/// What the server sends and does while it lets visitors in.
pub proof fn acceptors_send_pings_and_openings(acceptor: Acceptor, action: AcceptAction)
    requires
        call_ensures(Acceptor::action, (&acceptor,), action),
    ensures
        acceptor.stage is Pinging ==> (action matches AcceptAction::Send(frame) && frame@[0] == 1
            && frame@[1] == 0 && frame@[2] == 0),
        acceptor.stage matches AcceptStage::Opening(id) ==> (action matches AcceptAction::Send(
            frame,
        ) && frame@[0] == 3 && frame@[1] == id / 256 && frame@[2] == id % 256),
        acceptor.stage is Pausing ==> action == AcceptAction::Pause(50),
        acceptor.stage is Checking ==> action is Check,
        acceptor.stage is Accepting ==> action is Accept,
        acceptor.stage is Ended ==> action is Finish,
{
}

/// A server starts with stream number zero and counts its pings from the start.
pub proof fn acceptors_start_at_zero(now: u64, acceptor: Acceptor)
    requires
        call_ensures(Acceptor::new, (now,), acceptor),
    ensures
        acceptor.next_stream == 0,
        acceptor.last_ping == now,
        acceptor.stage is Checking,
{
}

/// A visitor is claimed under its number, and waits no more; a close frame does the same.
/// Pongs are expected, and other frames are not.
pub proof fn visitors_are_claimed_by_number<V>(
    pending: &mut Pending<V>,
    id: [u8; 2],
    claimed: Option<V>,
    closing: &mut Pending<V>,
    frame: [u8; 3],
    unexpected: Option<u8>,
    other: u16,
)
    requires
        call_ensures(Pending::<V>::claim_bytes, (pending, &id), claimed),
        call_ensures(Pending::<V>::take_frame, (closing, &frame), unexpected),
    ensures
        ({
            let number = (id@[0] * 256 + id@[1]) as u16;
            &&& old(pending)@.contains_key(number) ==> claimed == Some(old(pending)@[number])
            &&& !old(pending)@.contains_key(number) ==> claimed is None
            &&& !final(pending)@.contains_key(number)
            &&& other != number ==> final(pending)@.contains_key(other) == old(
                pending,
            )@.contains_key(other)
        }),
        ({
            let number = (frame@[1] * 256 + frame@[2]) as u16;
            &&& frame@[0] == 4 ==> !final(closing)@.contains_key(number) && unexpected is None
            &&& frame@[0] == 4 && other != number ==> final(closing)@.contains_key(other) == old(
                closing,
            )@.contains_key(other)
            &&& frame@[0] != 4 ==> final(closing)@ == old(closing)@
            &&& frame@[0] == 2 ==> unexpected is None
            &&& frame@[0] != 2 && frame@[0] != 4 ==> unexpected == Some(frame@[0])
        }),
{
}

// ── the client ──────────────────────────────────────────────────────────────
/// The client answers a ping with a pong, opens and closes streams by their numbers, and
/// passes over everything else.
pub proof fn clients_answer_pings(frame: [u8; 3], action: FrameAction)
    requires
        call_ensures(client::on_frame, (&frame,), action),
    ensures
        frame@[0] == 1 ==> (action matches FrameAction::Reply(reply) && reply@[0] == 2 && reply@[1]
            == 0 && reply@[2] == 0),
        frame@[0] == 3 ==> action == FrameAction::Open((frame@[1] * 256 + frame@[2]) as u16),
        frame@[0] == 4 ==> action == FrameAction::Closed((frame@[1] * 256 + frame@[2]) as u16),
        frame@[0] != 1 && frame@[0] != 3 && frame@[0] != 4 ==> action == FrameAction::Ignore(
            frame@[0],
        ),
{
}

/// The service is where the environment says; where that says nothing, where the file
/// says; and else at port 8080 of this machine.
pub proof fn services_are_where_they_are_said_to_be(
    env: Option<String>,
    file: Option<String>,
    addr: String,
)
    requires
        call_ensures(client::local_service_addr, (env, file), addr),
    ensures
        ({
            let env_says = env is Some && text::trimmed(env->0@).len() > 0;
            let file_says = file is Some && text::trimmed(file->0@).len() > 0;
            &&& env_says ==> addr@ == text::trimmed(env->0@)
            &&& !env_says && file_says ==> addr@ == text::trimmed(file->0@)
            &&& !env_says && !file_says ==> addr@ == "127.0.0.1:8080"@
        }),
{
}

/// The client connects, reads the ports, makes the public one known, serves, takes the
/// port back and waits before it connects again. Where something fails it waits too.
pub proof fn clients_go_round(public: u16, data: u16, bytes: [u8; 4])
    ensures
        ClientStage::Connecting.after(ClientEvent::Connected(true)) is Greeting,
        ClientStage::Connecting.after(ClientEvent::Connected(false)) is Waiting,
        ClientStage::Greeting.after(ClientEvent::Handshake(Some(bytes))) == (
        ClientStage::Publishing {
            public: (bytes@[0] * 256 + bytes@[1]) as u16,
            data: (bytes@[2] * 256 + bytes@[3]) as u16,
        }),
        ClientStage::Greeting.after(ClientEvent::Handshake(None)) is Waiting,
        (ClientStage::Publishing { public, data }).after(ClientEvent::PortWritten(true)) == (
        ClientStage::Serving { data }),
        (ClientStage::Publishing { public, data }).after(ClientEvent::PortWritten(false))
            is Waiting,
        (ClientStage::Serving { data }).after(ClientEvent::SessionOver) is Retracting,
        ClientStage::Retracting.after(ClientEvent::PortRemoved) is Waiting,
        ClientStage::Waiting.after(ClientEvent::Waited) is Connecting,
{
}

/// An event that does not fit its stage leaves the client as it is.
pub proof fn clients_heed_only_what_fits(stage: ClientStage, event: ClientEvent)
    ensures
        stage is Connecting && !(event is Connected) ==> stage.after(event) == stage,
        stage is Greeting && !(event is Handshake) ==> stage.after(event) == stage,
        stage is Publishing && !(event is PortWritten) ==> stage.after(event) == stage,
        stage is Serving && !(event is SessionOver) ==> stage.after(event) == stage,
        stage is Retracting && !(event is PortRemoved) ==> stage.after(event) == stage,
        stage is Waiting && !(event is Waited) ==> stage.after(event) == stage,
{
}

/// What the client does: it writes down the digits of its public port, serves at the data
/// port, and waits for five seconds.
pub proof fn clients_do_what_their_stage_asks(
    stage: ClientStage,
    action: ClientAction,
    public: u16,
    data: u16,
)
    requires
        call_ensures(ClientStage::action, (&stage,), action),
    ensures
        stage is Connecting ==> action is Connect,
        stage is Greeting ==> action is ReadHandshake,
        stage == (ClientStage::Publishing { public, data }) ==> (
        action matches ClientAction::WritePort(words) && words@ == text::decimal(public as nat)),
        stage == (ClientStage::Serving { data }) ==> action == ClientAction::Serve(data),
        stage is Retracting ==> action is RemovePort,
        stage is Waiting ==> action == ClientAction::Wait(5),
{
}

/// The stages follow the events as they are stated.
pub proof fn stages_follow_events<V>(
    stage: ClientStage,
    event: ClientEvent,
    next: ClientStage,
    acceptor: Acceptor,
    came: AcceptEvent<V>,
    pending: &mut Pending<V>,
    later: Acceptor,
    search: PortSearch,
    bound: bool,
    pool: &mut PortPool,
    found: PortSearch,
    told: Option<SessionEvent>,
)
    requires
        call_ensures(ClientStage::resume, (stage, event), next),
        call_ensures(Acceptor::resume::<V>, (acceptor, came, pending), later),
        call_ensures(PortSearch::resume, (search, bound, pool), found),
        call_ensures(PortSearch::event, (&search,), told),
    ensures
        next == stage.after(event),
        later == acceptor.after(came),
        final(pending)@ == acceptor.pending_after(came, old(pending)@),
        found == search.after(bound, old(pool)@),
        final(pool)@ == search.used_after(bound, old(pool)@),
        search is Trying ==> told is None,
        search matches PortSearch::Found(p) ==> told == Some(SessionEvent::Allocated(Some(p))),
        search is Exhausted ==> told == Some(SessionEvent::Allocated(None)),
{
}

} // verus!
