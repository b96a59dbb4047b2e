//! The public end of the tunnel.
//!
//! The server owns all ports. A volunteer that connects gets two of them: visitors
//! come in at the public one, and for each of them the volunteer dials back to the
//! data one. Both are free again when its session ends.
use crate::proto;
use crate::proto::{decode, encode, encode_handshake, from_big_endian, FRAME_LEN, HANDSHAKE_LEN,
    TAG_CLOSE, TAG_OPEN, TAG_PING, TAG_PONG};
use std::collections::{HashMap, HashSet};
use vstd::prelude::*;

verus! {

broadcast use vstd::std_specs::hash::group_hash_axioms;

/// The port that volunteers dial first.
pub const CONTROL_PORT: u16 = 9007;

/// The first port of the pool.
pub const PORT_RANGE_START: u16 = 30000;

/// The last port of the pool.
pub const PORT_RANGE_END: u16 = 31000;

/// How many nanoseconds pass between two keepalive requests.
pub const PING_INTERVAL_NS: u64 = 10_000_000_000;

/// How many seconds a visitor waits for the volunteer to dial back.
pub const DATA_ACCEPT_TIMEOUT_SECS: u64 = 10;

/// How many milliseconds to wait where no visitor is there.
pub const ACCEPT_PAUSE_MS: u64 = 50;

// ── ports ───────────────────────────────────────────────────────────────────
/// The ports of the pool that are in use.
pub struct PortPool {
    used: HashSet<u16>,
}

impl View for PortPool {
    type V = Set<u16>;

    closed spec fn view(&self) -> Set<u16> {
        self.used@
    }
}

/// Whether a port is in the pool and not in use.
pub open spec fn is_free(used: Set<u16>, port: u16) -> bool {
    PORT_RANGE_START <= port <= PORT_RANGE_END && !used.contains(port)
}

/// Whether a port comes after those that were tried.
pub open spec fn comes_after(tried: Option<u16>, port: u16) -> bool {
    tried is Some ==> tried->0 < port
}

/// The first port of the pool that is not in use, from a port on.
pub open spec fn first_free(used: Set<u16>, from: int) -> Option<u16>
    decreases PORT_RANGE_END + 1 - from,
{
    if from > PORT_RANGE_END {
        None
    } else if !used.contains(from as u16) {
        Some(from as u16)
    } else {
        first_free(used, from + 1)
    }
}

/// The first port that comes after those that were tried.
pub open spec fn next_to_try(tried: Option<u16>) -> int {
    if tried is Some && tried->0 >= PORT_RANGE_START {
        tried->0 + 1
    } else {
        PORT_RANGE_START as int
    }
}

/// The first free port from a port on is the smallest one that is free.
pub proof fn first_free_is_the_smallest(used: Set<u16>, from: int)
    requires
        PORT_RANGE_START <= from,
    ensures
        match first_free(used, from) {
            Some(p) => {
                &&& is_free(used, p)
                &&& from <= p
                &&& forall|q: u16|
                    #![trigger is_free(used, q)]
                    is_free(used, q) && from <= q ==> p <= q
            },
            None => forall|q: u16| #![trigger is_free(used, q)] is_free(used, q) ==> q < from,
        },
    decreases PORT_RANGE_END + 1 - from,
{
    if from <= PORT_RANGE_END && used.contains(from as u16) {
        first_free_is_the_smallest(used, from + 1);
        assert forall|q: u16| #[trigger] is_free(used, q) && from <= q implies from + 1 <= q by {
            if q == from {
                assert(used.contains(q));
            }
        }
    }
}

impl PortPool {
    /// A pool with no port in use.
    pub fn new() -> (pool: PortPool)
        ensures
            pool@ == Set::<u16>::empty(),
    {
        PortPool { used: HashSet::new() }
    }

    /// The first port after those that were tried that is not in use.
    pub fn candidate(&self, tried: Option<u16>) -> (port: Option<u16>)
        ensures
            port == first_free(self@, next_to_try(tried)),
            match port {
                Some(p) => {
                    &&& is_free(self@, p)
                    &&& comes_after(tried, p)
                    &&& forall|q: u16|
                        #![trigger is_free(self@, q)]
                        is_free(self@, q) && comes_after(tried, q) ==> p <= q
                },
                None => forall|q: u16|
                    #![trigger is_free(self@, q)]
                    !(is_free(self@, q) && comes_after(tried, q)),
            },
    {
        proof {
            first_free_is_the_smallest(self@, next_to_try(tried));
        }
        let mut port: u16 = match tried {
            Some(t) => if t < PORT_RANGE_START {
                PORT_RANGE_START
            } else if t >= PORT_RANGE_END {
                return None;
            } else {
                t + 1
            },
            None => PORT_RANGE_START,
        };
        while port <= PORT_RANGE_END
            invariant
                PORT_RANGE_START <= port <= PORT_RANGE_END + 1,
                comes_after(tried, port),
                first_free(self@, next_to_try(tried)) == first_free(self@, port as int),
                forall|q: u16|
                    #![trigger is_free(self@, q)]
                    is_free(self@, q) && comes_after(tried, q) ==> port <= q,
            decreases PORT_RANGE_END + 1 - port,
        {
            if !self.used.contains(&port) {
                assert(is_free(self@, port));
                return Some(port);
            }
            port = port + 1;
        }
        None
    }

    /// Puts a port into use.
    pub fn take_port(&mut self, port: u16)
        ensures
            final(self)@ == old(self)@.insert(port),
    {
        self.used.insert(port);
    }
}

/// Frees a port of a pool.
pub fn release_port(used_ports: &mut PortPool, port: u16)
    ensures
        final(used_ports)@ == old(used_ports)@.remove(port),
{
    used_ports.used.remove(&port);
}

/// A search for a port of the pool that is not in use and can be bound. The caller
/// tries to bind the ports, and lets nobody else use the pool in the meantime.
#[derive(Clone, Copy, Debug, PartialEq, Eq, Structural)]
pub enum PortSearch {
    /// This port is to be bound.
    Trying(u16),
    /// This port was bound and put into use.
    Found(u16),
    /// No port is left.
    Exhausted,
}

impl PortSearch {
    /// The search that goes on with a port, where there is one.
    pub open spec fn with(port: Option<u16>) -> PortSearch {
        match port {
            Some(p) => PortSearch::Trying(p),
            None => PortSearch::Exhausted,
        }
    }

    /// The search at its start.
    pub open spec fn starting(used: Set<u16>) -> PortSearch {
        PortSearch::with(first_free(used, PORT_RANGE_START as int))
    }

    /// The search once it is known whether the port could be bound. One that is over
    /// stays as it is.
    pub open spec fn after(self, bound: bool, used: Set<u16>) -> PortSearch {
        match self {
            PortSearch::Trying(p) => if bound {
                PortSearch::Found(p)
            } else {
                PortSearch::with(first_free(used, next_to_try(Some(p))))
            },
            _ => self,
        }
    }

    /// The ports in use once it is known whether the port could be bound.
    pub open spec fn used_after(self, bound: bool, used: Set<u16>) -> Set<u16> {
        match self {
            PortSearch::Trying(p) => if bound {
                used.insert(p)
            } else {
                used
            },
            _ => used,
        }
    }

    /// Takes in whether the port could be bound. One that was is put into use.
    pub fn resume(self, bound: bool, pool: &mut PortPool) -> (next: PortSearch)
        ensures
            next == self.after(bound, old(pool)@),
            final(pool)@ == self.used_after(bound, old(pool)@),
    {
        match self {
            PortSearch::Trying(port) => if bound {
                pool.take_port(port);
                PortSearch::Found(port)
            } else {
                match pool.candidate(Some(port)) {
                    Some(next) => PortSearch::Trying(next),
                    None => PortSearch::Exhausted,
                }
            },
            search => search,
        }
    }

    /// What the search means for the session that needs the port, once it is over.
    pub fn event(&self) -> (event: Option<SessionEvent>)
        ensures
            event == (match *self {
                PortSearch::Trying(_) => None,
                PortSearch::Found(p) => Some(SessionEvent::Allocated(Some(p))),
                PortSearch::Exhausted => Some(SessionEvent::Allocated(None)),
            }),
    {
        match *self {
            PortSearch::Trying(_) => None,
            PortSearch::Found(p) => Some(SessionEvent::Allocated(Some(p))),
            PortSearch::Exhausted => Some(SessionEvent::Allocated(None)),
        }
    }
}

/// Starts to look for a port of the pool that is not in use and can be bound.
pub fn allocate_port(used_ports: &PortPool) -> (search: PortSearch)
    ensures
        search == PortSearch::starting(used_ports@),
{
    match used_ports.candidate(None) {
        Some(port) => PortSearch::Trying(port),
        None => PortSearch::Exhausted,
    }
}

// ── sessions ────────────────────────────────────────────────────────────────
/// How far a volunteer's session has come.
#[derive(Clone, Copy, Debug, PartialEq, Eq, Structural)]
pub enum Session {
    /// It needs a public port.
    NeedPublic,
    /// It needs a data port.
    NeedData {
        /// Its public port.
        public: u16,
    },
    /// The volunteer is to be told its ports.
    Greeting {
        /// Its public port.
        public: u16,
        /// Its data port.
        data: u16,
    },
    /// The control connection is to be split in two.
    Splitting {
        /// Its public port.
        public: u16,
        /// Its data port.
        data: u16,
    },
    /// Visitors are let in.
    Serving {
        /// Its public port.
        public: u16,
        /// Its data port.
        data: u16,
    },
    /// It is over.
    Ended,
}

/// What happened in a session.
#[derive(Clone, Copy, Debug, PartialEq, Eq, Structural)]
pub enum SessionEvent {
    /// A port of the pool was bound and put into use, or none could be.
    Allocated(Option<u16>),
    /// The volunteer was told its ports, or could not be.
    Greeted(bool),
    /// The control connection was split, or could not be.
    Split(bool),
    /// No more visitors are let in.
    Stopped,
}

/// What to do next in a session.
#[derive(Clone, Copy, Debug, PartialEq, Eq)]
pub enum SessionAction {
    /// Bind a port of the pool and put it into use.
    Allocate,
    /// Send these bytes to the volunteer.
    Greet([u8; HANDSHAKE_LEN]),
    /// Split the control connection in two.
    Split,
    /// Let visitors in.
    Serve,
    /// Nothing: the session is over.
    Finish,
}

impl Session {
    /// The ports that the session holds.
    pub open spec fn held(self) -> Set<u16> {
        match self {
            Session::NeedPublic => Set::empty(),
            Session::NeedData { public } => Set::empty().insert(public),
            Session::Greeting { public, data } => Set::empty().insert(public).insert(data),
            Session::Splitting { public, data } => Set::empty().insert(public).insert(data),
            Session::Serving { public, data } => Set::empty().insert(public).insert(data),
            Session::Ended => Set::empty(),
        }
    }

    /// The session after an event. An event that does not fit changes nothing.
    pub open spec fn after(self, event: SessionEvent) -> Session {
        match (self, event) {
            (Session::NeedPublic, SessionEvent::Allocated(Some(public))) => Session::NeedData {
                public,
            },
            (Session::NeedPublic, SessionEvent::Allocated(None)) => Session::Ended,
            (Session::NeedData { public }, SessionEvent::Allocated(Some(data))) =>
                Session::Greeting { public, data },
            (Session::NeedData { public }, SessionEvent::Allocated(None)) => Session::Ended,
            (Session::Greeting { public, data }, SessionEvent::Greeted(ok)) => if ok {
                Session::Splitting { public, data }
            } else {
                Session::Ended
            },
            (Session::Splitting { public, data }, SessionEvent::Split(ok)) => if ok {
                Session::Serving { public, data }
            } else {
                Session::Ended
            },
            (Session::Serving { public, data }, SessionEvent::Stopped) => Session::Ended,
            (session, _) => session,
        }
    }

    /// What to do next.
    pub fn action(&self) -> (action: SessionAction)
        ensures
            match *self {
                Session::NeedPublic => action is Allocate,
                Session::NeedData { public } => action is Allocate,
                Session::Greeting { public, data } => action matches SessionAction::Greet(bytes)
                    && proto::handshake_of(bytes@) == (public as int, data as int),
                Session::Splitting { public, data } => action is Split,
                Session::Serving { public, data } => action is Serve,
                Session::Ended => action is Finish,
            },
    {
        match *self {
            Session::NeedPublic => SessionAction::Allocate,
            Session::NeedData { public: _ } => SessionAction::Allocate,
            Session::Greeting { public, data } => SessionAction::Greet(
                encode_handshake(public, data),
            ),
            Session::Splitting { public: _, data: _ } => SessionAction::Split,
            Session::Serving { public: _, data: _ } => SessionAction::Serve,
            Session::Ended => SessionAction::Finish,
        }
    }

    /// Takes in an event. A session that ends frees the ports that it held.
    pub fn resume(self, event: SessionEvent, pool: &mut PortPool) -> (next: Session)
        ensures
            next == self.after(event),
            final(pool)@ == if next is Ended {
                old(pool)@.difference(self.held())
            } else {
                old(pool)@
            },
    {
        let next = match (self, event) {
            (Session::NeedPublic, SessionEvent::Allocated(Some(public))) => Session::NeedData {
                public,
            },
            (Session::NeedPublic, SessionEvent::Allocated(None)) => Session::Ended,
            (Session::NeedData { public }, SessionEvent::Allocated(Some(data))) =>
                Session::Greeting { public, data },
            (Session::NeedData { public: _ }, SessionEvent::Allocated(None)) => Session::Ended,
            (Session::Greeting { public, data }, SessionEvent::Greeted(ok)) => if ok {
                Session::Splitting { public, data }
            } else {
                Session::Ended
            },
            (Session::Splitting { public, data }, SessionEvent::Split(ok)) => if ok {
                Session::Serving { public, data }
            } else {
                Session::Ended
            },
            (Session::Serving { public: _, data: _ }, SessionEvent::Stopped) => Session::Ended,
            (session, _) => session,
        };
        let ghost before = pool@;
        if next == Session::Ended {
            match self {
                Session::NeedData { public } => {
                    release_port(pool, public);
                    assert(pool@ =~= before.difference(self.held()));
                },
                Session::Greeting { public, data } => {
                    release_port(pool, public);
                    release_port(pool, data);
                    assert(pool@ =~= before.difference(self.held()));
                },
                Session::Splitting { public, data } => {
                    release_port(pool, public);
                    release_port(pool, data);
                    assert(pool@ =~= before.difference(self.held()));
                },
                Session::Serving { public, data } => {
                    release_port(pool, public);
                    release_port(pool, data);
                    assert(pool@ =~= before.difference(self.held()));
                },
                _ => {
                    assert(pool@ =~= before.difference(self.held()));
                },
            }
        }
        next
    }
}

// ── visitors that wait ──────────────────────────────────────────────────────
/// Visitors that wait for the volunteer to dial back, by the number of their stream.
pub struct Pending<V> {
    waiting: HashMap<u16, V>,
}

impl<V> View for Pending<V> {
    type V = Map<u16, V>;

    closed spec fn view(&self) -> Map<u16, V> {
        self.waiting@
    }
}

impl<V> Pending<V> {
    /// Nobody waits.
    pub fn new() -> (pending: Pending<V>)
        ensures
            pending@ == Map::<u16, V>::empty(),
    {
        Pending { waiting: HashMap::new() }
    }

    /// Lets a visitor wait. One that waited under the same number is let go.
    pub fn add_visitor(&mut self, stream_id: u16, visitor: V)
        ensures
            final(self)@ == old(self)@.insert(stream_id, visitor),
    {
        self.waiting.insert(stream_id, visitor);
    }

    /// Hands out the visitor that waits under a number.
    pub fn claim(&mut self, stream_id: u16) -> (visitor: Option<V>)
        ensures
            final(self)@ == old(self)@.remove(stream_id),
            match visitor {
                Some(v) => old(self)@.contains_key(stream_id) && v == old(self)@[stream_id],
                None => !old(self)@.contains_key(stream_id),
            },
    {
        self.waiting.remove(&stream_id)
    }

    /// Hands out the visitor for which a volunteer has dialled back, from the two
    /// bytes that it sent first.
    pub fn claim_bytes(&mut self, id: &[u8; 2]) -> (visitor: Option<V>)
        ensures
            ({
                let stream_id = proto::big_endian(id@[0], id@[1]) as u16;
                &&& final(self)@ == old(self)@.remove(stream_id)
                &&& match visitor {
                    Some(v) => old(self)@.contains_key(stream_id) && v == old(self)@[stream_id],
                    None => !old(self)@.contains_key(stream_id),
                }
            }),
    {
        let stream_id: u16 = from_big_endian(id[0], id[1]);
        self.claim(stream_id)
    }

    /// Takes in a frame from the volunteer: a stream that it closes waits no more, a
    /// keepalive reply changes nothing, and a tag that is neither is handed back.
    pub fn take_frame(&mut self, frame: &[u8; FRAME_LEN]) -> (unexpected: Option<u8>)
        ensures
            ({
                let (tag, stream_id) = proto::frame_of(frame@);
                &&& final(self)@ == if tag == TAG_CLOSE {
                    old(self)@.remove(stream_id as u16)
                } else {
                    old(self)@
                }
                &&& unexpected == if tag == TAG_CLOSE || tag == TAG_PONG {
                    None::<u8>
                } else {
                    Some(tag)
                }
            }),
    {
        let (tag, stream_id) = decode(frame);
        if tag == TAG_PONG {
            None
        } else if tag == TAG_CLOSE {
            let _gone = self.claim(stream_id);
            None
        } else {
            Some(tag)
        }
    }
}

// ── letting visitors in ─────────────────────────────────────────────────────
/// Where the loop that lets visitors in stands.
#[derive(Clone, Copy, Debug, PartialEq, Eq, Structural)]
pub enum AcceptStage {
    /// At its start.
    Checking,
    /// Sending a keepalive request.
    Pinging,
    /// Looking for a visitor.
    Accepting,
    /// Announcing a visitor to the volunteer.
    Opening(u16),
    /// Waiting for a moment.
    Pausing,
    /// At its end.
    Ended,
}

/// The loop that lets visitors in.
#[derive(Clone, Copy, Debug, PartialEq, Eq, Structural)]
pub struct Acceptor {
    /// The number of the next stream.
    pub next_stream: u16,
    /// When the last keepalive request was sent, in nanoseconds.
    pub last_ping: u64,
    /// Where the loop stands.
    pub stage: AcceptStage,
}

/// What to do next in the loop.
#[derive(Clone, Copy, Debug, PartialEq, Eq)]
pub enum AcceptAction {
    /// Read the clock.
    Check,
    /// Send this frame to the volunteer.
    Send([u8; FRAME_LEN]),
    /// Look for a visitor.
    Accept,
    /// Wait for some milliseconds.
    Pause(u64),
    /// Nothing: the loop has ended.
    Finish,
}

/// What happened in the loop.
#[derive(Debug)]
pub enum AcceptEvent<V> {
    /// The clock shows this many nanoseconds.
    Clock(u64),
    /// A frame was sent at this many nanoseconds, or could not be.
    Sent(Option<u64>),
    /// A visitor has come.
    Visitor(V),
    /// No visitor is there.
    Nobody,
    /// Visitors cannot come any more.
    Broken,
    /// The wait is over.
    Paused,
}

impl Acceptor {
    /// Whether it is time for a keepalive request.
    pub open spec fn ping_due(self, now: u64) -> bool {
        now - self.last_ping >= PING_INTERVAL_NS
    }

    /// The loop after an event. An event that does not fit changes nothing.
    pub open spec fn after<V>(self, event: AcceptEvent<V>) -> Acceptor {
        match (self.stage, event) {
            (AcceptStage::Checking, AcceptEvent::Clock(now)) => Acceptor {
                stage: if self.ping_due(now) {
                    AcceptStage::Pinging
                } else {
                    AcceptStage::Accepting
                },
                ..self
            },
            (AcceptStage::Pinging, AcceptEvent::Sent(Some(now))) => Acceptor {
                last_ping: now,
                stage: AcceptStage::Accepting,
                ..self
            },
            (AcceptStage::Pinging, AcceptEvent::Sent(None)) => Acceptor {
                stage: AcceptStage::Ended,
                ..self
            },
            (AcceptStage::Accepting, AcceptEvent::Visitor(_)) => Acceptor {
                next_stream: if self.next_stream == u16::MAX {
                    0
                } else {
                    (self.next_stream + 1) as u16
                },
                stage: AcceptStage::Opening(self.next_stream),
                ..self
            },
            (AcceptStage::Accepting, AcceptEvent::Nobody) => Acceptor {
                stage: AcceptStage::Pausing,
                ..self
            },
            (AcceptStage::Accepting, AcceptEvent::Broken) => Acceptor {
                stage: AcceptStage::Ended,
                ..self
            },
            (AcceptStage::Opening(_), AcceptEvent::Sent(Some(_))) => Acceptor {
                stage: AcceptStage::Checking,
                ..self
            },
            (AcceptStage::Opening(_), AcceptEvent::Sent(None)) => Acceptor {
                stage: AcceptStage::Ended,
                ..self
            },
            (AcceptStage::Pausing, AcceptEvent::Paused) => Acceptor {
                stage: AcceptStage::Checking,
                ..self
            },
            _ => self,
        }
    }

    /// The visitors that wait, after an event: one that is let in waits under the number
    /// of its stream, before it is announced.
    pub open spec fn pending_after<V>(self, event: AcceptEvent<V>, pending: Map<u16, V>) -> Map<
        u16,
        V,
    > {
        match (self.stage, event) {
            (AcceptStage::Accepting, AcceptEvent::Visitor(visitor)) => pending.insert(
                self.next_stream,
                visitor,
            ),
            _ => pending,
        }
    }

    /// A loop at its start.
    pub open spec fn starting(now: u64) -> Acceptor {
        Acceptor { next_stream: 0, last_ping: now, stage: AcceptStage::Checking }
    }

    /// A loop that starts now.
    pub fn new(now: u64) -> (acceptor: Acceptor)
        ensures
            acceptor == Acceptor::starting(now),
    {
        Acceptor { next_stream: 0, last_ping: now, stage: AcceptStage::Checking }
    }

    /// What to do next.
    pub fn action(&self) -> (action: AcceptAction)
        ensures
            match self.stage {
                AcceptStage::Checking => action is Check,
                AcceptStage::Pinging => action matches AcceptAction::Send(frame)
                    && proto::frame_of(frame@) == (TAG_PING, 0int),
                AcceptStage::Accepting => action is Accept,
                AcceptStage::Opening(id) => action matches AcceptAction::Send(frame)
                    && proto::frame_of(frame@) == (TAG_OPEN, id as int),
                AcceptStage::Pausing => action == AcceptAction::Pause(ACCEPT_PAUSE_MS),
                AcceptStage::Ended => action is Finish,
            },
    {
        match self.stage {
            AcceptStage::Checking => AcceptAction::Check,
            AcceptStage::Pinging => AcceptAction::Send(encode(TAG_PING, 0)),
            AcceptStage::Accepting => AcceptAction::Accept,
            AcceptStage::Opening(id) => AcceptAction::Send(encode(TAG_OPEN, id)),
            AcceptStage::Pausing => AcceptAction::Pause(ACCEPT_PAUSE_MS),
            AcceptStage::Ended => AcceptAction::Finish,
        }
    }

    /// Takes in an event. A visitor that is let in is put among those that wait.
    pub fn resume<V>(self, event: AcceptEvent<V>, pending: &mut Pending<V>) -> (next: Acceptor)
        ensures
            next == self.after(event),
            final(pending)@ == self.pending_after(event, old(pending)@),
    {
        let mut next = self;
        match (self.stage, event) {
            (AcceptStage::Checking, AcceptEvent::Clock(now)) => {
                next.stage = if now >= self.last_ping && now - self.last_ping >= PING_INTERVAL_NS {
                    AcceptStage::Pinging
                } else {
                    AcceptStage::Accepting
                };
            },
            (AcceptStage::Pinging, AcceptEvent::Sent(Some(now))) => {
                next.last_ping = now;
                next.stage = AcceptStage::Accepting;
            },
            (AcceptStage::Accepting, AcceptEvent::Visitor(visitor)) => {
                pending.add_visitor(self.next_stream, visitor);
                next.next_stream = self.next_stream.wrapping_add(1);
                next.stage = AcceptStage::Opening(self.next_stream);
            },
            (AcceptStage::Accepting, AcceptEvent::Nobody) => {
                next.stage = AcceptStage::Pausing;
            },
            (AcceptStage::Opening(_), AcceptEvent::Sent(Some(_))) => {
                next.stage = AcceptStage::Checking;
            },
            (AcceptStage::Pausing, AcceptEvent::Paused) => {
                next.stage = AcceptStage::Checking;
            },
            (AcceptStage::Pinging, AcceptEvent::Sent(None)) => {
                next.stage = AcceptStage::Ended;
            },
            (AcceptStage::Accepting, AcceptEvent::Broken) => {
                next.stage = AcceptStage::Ended;
            },
            (AcceptStage::Opening(_), AcceptEvent::Sent(None)) => {
                next.stage = AcceptStage::Ended;
            },
            _ => {},
        }
        next
    }
}

// ── laws ────────────────────────────────────────────────────────────────────
/// How a search ends and which ports are then in use, where just some ports can be
/// bound.
pub open spec fn searched(search: PortSearch, used: Set<u16>, can_bind: Set<u16>) -> (
    PortSearch,
    Set<u16>,
)
    decreases
            (match search {
                PortSearch::Trying(p) => 0x1_0000 - p,
                _ => 0int,
            }),
{
    match search {
        PortSearch::Trying(p) => if can_bind.contains(p) {
            (search.after(true, used), search.used_after(true, used))
        } else {
            proof {
                first_free_is_the_smallest(used, next_to_try(Some(p)));
            }
            searched(search.after(false, used), search.used_after(false, used), can_bind)
        },
        _ => (search, used),
    }
}

proof fn lemma_searched(search: PortSearch, used: Set<u16>, can_bind: Set<u16>)
    requires
        match search {
            PortSearch::Trying(p) => is_free(used, p) && forall|q: u16|
                #![trigger is_free(used, q)]
                is_free(used, q) && q < p ==> !can_bind.contains(q),
            PortSearch::Found(p) => false,
            PortSearch::Exhausted => forall|q: u16|
                #![trigger is_free(used, q)]
                is_free(used, q) ==> !can_bind.contains(q),
        },
    ensures
        is_first_port(searched(search, used, can_bind), used, can_bind),
    decreases
            (match search {
                PortSearch::Trying(p) => 0x1_0000 - p,
                _ => 0int,
            }),
{
    if let PortSearch::Trying(p) = search {
        if !can_bind.contains(p) {
            first_free_is_the_smallest(used, next_to_try(Some(p)));
            lemma_searched(search.after(false, used), used, can_bind);
        }
    }
}

/// Whether a search ended as it should: with the smallest port that is free and can be
/// bound, which is then in use too, or with none where there is no such port.
pub open spec fn is_first_port(
    end: (PortSearch, Set<u16>),
    used: Set<u16>,
    can_bind: Set<u16>,
) -> bool {
    match end.0 {
        PortSearch::Trying(_) => false,
        PortSearch::Found(p) => {
            &&& is_free(used, p)
            &&& can_bind.contains(p)
            &&& forall|q: u16|
                #![trigger is_free(used, q)]
                is_free(used, q) && can_bind.contains(q) ==> p <= q
            &&& end.1 == used.insert(p)
        },
        PortSearch::Exhausted => {
            &&& forall|q: u16|
                #![trigger is_free(used, q)]
                is_free(used, q) ==> !can_bind.contains(q)
            &&& end.1 == used
        },
    }
}

/// A search gives the smallest port of the pool that is free and can be bound, or none
/// where there is no such port.
pub proof fn search_takes_the_first_port(used: Set<u16>, can_bind: Set<u16>)
    ensures
        is_first_port(searched(PortSearch::starting(used), used, can_bind), used, can_bind),
{
    first_free_is_the_smallest(used, PORT_RANGE_START as int);
    lemma_searched(PortSearch::starting(used), used, can_bind);
}

/// The ports in use after an event of a session, where nobody else uses the pool: a
/// port that is allocated is put into use, and a session that ends frees its own.
pub open spec fn ports_after(used: Set<u16>, session: Session, event: SessionEvent) -> Set<u16> {
    let more = match (session, event) {
        (Session::NeedPublic, SessionEvent::Allocated(Some(p))) => used.insert(p),
        (Session::NeedData { public }, SessionEvent::Allocated(Some(p))) => used.insert(p),
        _ => used,
    };
    if session.after(event) is Ended {
        more.difference(session.held())
    } else {
        more
    }
}

/// Whether an event hands a session a port that is free.
pub open spec fn hands_free_port(used: Set<u16>, event: SessionEvent) -> bool {
    event matches SessionEvent::Allocated(Some(p)) ==> is_free(used, p)
}

/// A session holds just the ports that it has put into use, whatever happens: so
/// they are all free again when it has ended, however it ended.
pub proof fn session_frees_its_ports(
    others: Set<u16>,
    used: Set<u16>,
    session: Session,
    event: SessionEvent,
)
    requires
        used == others.union(session.held()),
        others.disjoint(session.held()),
        hands_free_port(used, event),
    ensures
        ports_after(used, session, event) == others.union(session.after(event).held()),
        others.disjoint(session.after(event).held()),
        session.after(event) is Ended ==> ports_after(used, session, event) == others,
{
    let after = ports_after(used, session, event);
    let held = session.after(event).held();
    assert(after =~= others.union(held));
    assert(others.disjoint(held));
    if session.after(event) is Ended {
        assert(others.union(held) =~= others);
    }
}

/// The two ports of a session differ where each was free when it was handed out.
pub proof fn session_ports_differ(used: Set<u16>, public: u16, data: u16)
    requires
        used.contains(public),
        is_free(used, data),
    ensures
        (Session::NeedData { public }).after(SessionEvent::Allocated(Some(data))) == (
        Session::Greeting { public, data }),
        public != data,
{
}

/// The number of the stream of a visitor that comes after a number of others.
pub open spec fn stream_number(first: u16, visitors: nat) -> int {
    (first + visitors) % 0x1_0000
}

/// The loop after a run of events.
pub open spec fn after_all<V>(start: Acceptor, events: Seq<AcceptEvent<V>>) -> Acceptor
    decreases events.len(),
{
    if events.len() == 0 {
        start
    } else {
        after_all(start, events.drop_last()).after(events.last())
    }
}

/// The visitors that were let in during a run of events.
pub open spec fn let_in<V>(start: Acceptor, events: Seq<AcceptEvent<V>>) -> Seq<V>
    decreases events.len(),
{
    if events.len() == 0 {
        Seq::empty()
    } else {
        let before = let_in(start, events.drop_last());
        match (after_all(start, events.drop_last()).stage, events.last()) {
            (AcceptStage::Accepting, AcceptEvent::Visitor(visitor)) => before.push(visitor),
            _ => before,
        }
    }
}

/// The frames that were written to the volunteer during a run of events: the tag and
/// the number of each.
pub open spec fn written<V>(start: Acceptor, events: Seq<AcceptEvent<V>>) -> Seq<(u8, int)>
    decreases events.len(),
{
    if events.len() == 0 {
        Seq::empty()
    } else {
        let before = written(start, events.drop_last());
        match (after_all(start, events.drop_last()).stage, events.last()) {
            (AcceptStage::Pinging, AcceptEvent::Sent(Some(_))) => before.push((TAG_PING, 0int)),
            (AcceptStage::Opening(id), AcceptEvent::Sent(Some(_))) => before.push(
                (TAG_OPEN, id as int),
            ),
            _ => before,
        }
    }
}

/// The numbers in the frames that announce visitors.
pub open spec fn announced(frames: Seq<(u8, int)>) -> Seq<int>
    decreases frames.len(),
{
    if frames.len() == 0 {
        Seq::empty()
    } else if frames.last().0 == TAG_OPEN {
        announced(frames.drop_last()).push(frames.last().1)
    } else {
        announced(frames.drop_last())
    }
}

/// Visitors are announced in the order in which they are let in, numbered from zero, and
/// from zero again after the last number. Besides that, only keepalive requests are
/// written.
pub proof fn visitors_are_announced_in_order<V>(now: u64, events: Seq<AcceptEvent<V>>)
    ensures
        ({
            let start = Acceptor::starting(now);
            let end = after_all(start, events);
            let visitors = let_in(start, events).len();
            let frames = written(start, events);
            let opened = announced(frames);
            &&& forall|i: int|
                0 <= i < frames.len() ==> #[trigger] frames[i] == (TAG_PING, 0int) || frames[i].0
                    == TAG_OPEN
            &&& forall|k: int|
                0 <= k < opened.len() ==> #[trigger] opened[k] == stream_number(0, k as nat)
            &&& end.next_stream == stream_number(0, visitors)
            &&& match end.stage {
                AcceptStage::Opening(id) => visitors == opened.len() + 1 && id == stream_number(
                    0,
                    opened.len(),
                ),
                AcceptStage::Ended => opened.len() <= visitors <= opened.len() + 1,
                _ => visitors == opened.len(),
            }
        }),
    decreases events.len(),
{
    if events.len() > 0 {
        let start = Acceptor::starting(now);
        let fewer = events.drop_last();
        visitors_are_announced_in_order(now, fewer);
        let frames = written(start, events);
        let before = written(start, fewer);
        if frames.len() > before.len() {
            assert(frames.drop_last() =~= before);
            assert forall|i: int| 0 <= i < frames.len() implies #[trigger] frames[i] == (
                TAG_PING,
                0int,
            ) || frames[i].0 == TAG_OPEN by {
                if i < before.len() {
                    assert(frames[i] == before[i]);
                }
            }
        }
    }
}

/// A visitor that is let in waits under the number by which it is announced next.
pub proof fn visitors_wait_before_they_are_announced<V>(
    now: u64,
    events: Seq<AcceptEvent<V>>,
    visitor: V,
    pending: Map<u16, V>,
)
    requires
        after_all(Acceptor::starting(now), events).stage is Accepting,
    ensures
        ({
            let start = Acceptor::starting(now);
            let acceptor = after_all(start, events);
            let event = AcceptEvent::Visitor(visitor);
            let id = stream_number(0, let_in(start, events).len());
            &&& acceptor.pending_after(event, pending) == pending.insert(id as u16, visitor)
            &&& acceptor.after(event).stage == AcceptStage::Opening(id as u16)
        }),
{
    visitors_are_announced_in_order(now, events);
}

/// A frame that cannot be written ends the loop, and an ended loop does nothing more.
pub proof fn failed_writes_end_the_loop<V>(acceptor: Acceptor, event: AcceptEvent<V>, pending: Map<
    u16,
    V,
>)
    ensures
        acceptor.stage is Pinging || acceptor.stage is Opening ==> acceptor.after(
            AcceptEvent::<V>::Sent(None),
        ).stage is Ended,
        acceptor.stage is Ended ==> acceptor.after(event) == acceptor && acceptor.pending_after(
            event,
            pending,
        ) == pending,
{
}

/// No two visitors have the same number unless more than 65535 came between them.
pub proof fn stream_numbers_differ(first: u16, a: nat, b: nat)
    requires
        a < b < a + 0x1_0000,
    ensures
        stream_number(first, a) != stream_number(first, b),
{
}

} // verus!
