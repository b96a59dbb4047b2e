//! The broker: it knows the agents that hold a stream open, hands each request to
//! one of them and waits for the answer.
use crate::http;
use crate::http::can_build;
use crate::ids;
use crate::ids::{hyphenated_text, random_id};
use crate::mesh::messages;
use crate::mesh::messages::{
    low_bits, request_frame, visitor_answer, Answer, FrameKind, RequestFrame, ResponsePayload,
    VisitorRequest,
};
use crate::mesh::nodes;
use crate::mesh::nodes::{
    all_nodes, get_node, new_nodes, new_requests, put_node, put_request, remove_node,
    retain_nodes, silent_for, take_request, NamedNode, Node,
};
use dashmap::DashMap;
use vstd::prelude::*;

verus! {

/// How many nanoseconds an agent may be silent before it gets no more requests.
pub const HEALTHY_WITHIN_NS: u64 = 30_000_000_000;

/// How many seconds to wait for an answer.
pub const ANSWER_TIMEOUT_SECS: u64 = 15;

/// How many seconds pass between two looks for silent agents.
pub const SWEEP_INTERVAL_SECS: u64 = 10;

/// Nanoseconds in a second.
pub const SECOND_NS: u64 = 1_000_000_000;

/// Decides whether an agent that opens a stream is let in, given what its first
/// frame is for, where there was one.
pub fn let_in(first: Option<FrameKind>) -> (verdict: Result<(), String>)
    ensures
        match verdict {
            Ok(_) => first == Some(FrameKind::Register),
            Err(e) => match first {
                None => e@ == "Stream closed before REGISTER"@,
                Some(kind) => kind != FrameKind::Register && e@ == "First frame must be REGISTER"@,
            },
        },
{
    match first {
        None => Err("Stream closed before REGISTER".to_owned()),
        Some(FrameKind::Register) => Ok(()),
        Some(_) => Err("First frame must be REGISTER".to_owned()),
    }
}

/// How busy an agent says it is. Fractions are held as the bits of 32-bit
/// floating-point numbers.
#[derive(Clone, Copy, Debug, PartialEq, Eq, Structural)]
pub struct Load {
    /// The bits of its processor load in percent.
    pub cpu_usage: u32,
    /// The memory that it uses in bytes.
    pub memory_used: u64,
    /// How many requests it is serving.
    pub active_requests: u32,
    /// The bits of its load average.
    pub load_average: u32,
}

/// What came of a frame from an agent.
#[derive(Clone, Copy, Debug, PartialEq, Eq, Structural)]
pub enum FrameEffect {
    /// What is known of the agent was brought up to date.
    Refreshed,
    /// The heartbeat was of an agent that is not known.
    UnknownAgent,
    /// The heartbeat could not be read.
    Unreadable,
    /// The answer goes to the task with this number.
    Answered(u64),
    /// Nobody waits for the answer.
    UnknownRequest,
    /// The frame was not expected.
    Unexpected,
}

/// The agents, and the requests that wait for an answer.
pub struct Broker {
    volunteers: DashMap<String, Node>,
    pending_requests: DashMap<String, u64>,
}

/// The value of a [`Broker`].
#[verifier::ext_equal]
pub struct BrokerView {
    /// The agents, by their names.
    pub nodes: Map<Seq<char>, Node>,
    /// The numbers of the tasks that wait for an answer, by their requests.
    pub requests: Map<Seq<char>, u64>,
}

impl View for Broker {
    type V = BrokerView;

    closed spec fn view(&self) -> BrokerView {
        BrokerView {
            nodes: nodes::nodes_of(self.volunteers),
            requests: nodes::requests_of(self.pending_requests),
        }
    }
}

/// An agent after a heartbeat.
pub open spec fn refreshed(node: Node, load: Load, now: u64) -> Node {
    Node {
        last_heartbeat: now,
        cpu_usage: load.cpu_usage,
        memory_used: load.memory_used,
        active_requests: load.active_requests,
        load_average: load.load_average,
        ..node
    }
}

impl BrokerView {
    /// What comes of a frame from an agent.
    pub open spec fn effect(
        self,
        kind: FrameKind,
        agent: Seq<char>,
        request_id: Seq<char>,
        load: Option<Load>,
    ) -> FrameEffect {
        match kind {
            FrameKind::Heartbeat => if load is None {
                FrameEffect::Unreadable
            } else if self.nodes.contains_key(agent) {
                FrameEffect::Refreshed
            } else {
                FrameEffect::UnknownAgent
            },
            FrameKind::Response => if self.requests.contains_key(request_id) {
                FrameEffect::Answered(self.requests[request_id])
            } else {
                FrameEffect::UnknownRequest
            },
            _ => FrameEffect::Unexpected,
        }
    }

    /// The broker after a frame from an agent.
    pub open spec fn after_frame(
        self,
        kind: FrameKind,
        agent: Seq<char>,
        request_id: Seq<char>,
        load: Option<Load>,
        now: u64,
    ) -> BrokerView {
        match self.effect(kind, agent, request_id, load) {
            FrameEffect::Refreshed => BrokerView {
                nodes: self.nodes.insert(agent, refreshed(self.nodes[agent], load->0, now)),
                ..self
            },
            FrameEffect::Answered(ticket) => BrokerView {
                requests: self.requests.remove(request_id),
                ..self
            },
            _ => self,
        }
    }
}

impl Broker {
    /// A broker that knows nobody.
    pub fn new() -> (broker: Broker)
        ensures
            broker@ == (BrokerView { nodes: Map::empty(), requests: Map::empty() }),
    {
        let broker = Broker { volunteers: new_nodes(), pending_requests: new_requests() };
        assert(broker@.nodes =~= Map::empty());
        assert(broker@.requests =~= Map::empty());
        broker
    }

    /// Takes in an agent that was let in. One with the same name is replaced.
    pub fn register(&mut self, name: &str, channel: u64, now: u64)
        ensures
            final(self)@ == (BrokerView {
                nodes: old(self)@.nodes.insert(
                    name@,
                    Node {
                        channel,
                        last_heartbeat: now,
                        cpu_usage: 0,
                        memory_used: 0,
                        active_requests: 0,
                        load_average: 0,
                    },
                ),
                requests: old(self)@.requests,
            }),
    {
        let node = Node {
            channel,
            last_heartbeat: now,
            cpu_usage: 0,
            memory_used: 0,
            active_requests: 0,
            load_average: 0,
        };
        put_node(&mut self.volunteers, name, node);
    }

    /// Takes in a frame from an agent. `load` is what a heartbeat holds, where it can
    /// be read.
    pub fn take_frame(
        &mut self,
        kind: FrameKind,
        agent: &str,
        request_id: &str,
        load: Option<Load>,
        now: u64,
    ) -> (effect: FrameEffect)
        ensures
            effect == old(self)@.effect(kind, agent@, request_id@, load),
            final(self)@ == old(self)@.after_frame(kind, agent@, request_id@, load, now),
    {
        match kind {
            FrameKind::Heartbeat => match load {
                None => FrameEffect::Unreadable,
                Some(l) => match get_node(&self.volunteers, agent) {
                    None => FrameEffect::UnknownAgent,
                    Some(node) => {
                        let fresh = Node {
                            channel: node.channel,
                            last_heartbeat: now,
                            cpu_usage: l.cpu_usage,
                            memory_used: l.memory_used,
                            active_requests: l.active_requests,
                            load_average: l.load_average,
                        };
                        put_node(&mut self.volunteers, agent, fresh);
                        FrameEffect::Refreshed
                    },
                },
            },
            FrameKind::Response => {
                let ghost before = self@.requests;
                match take_request(&mut self.pending_requests, request_id) {
                    Some(ticket) => FrameEffect::Answered(ticket),
                    None => {
                        assert(self@.requests =~= before);
                        FrameEffect::UnknownRequest
                    },
                }
            },
            _ => FrameEffect::Unexpected,
        }
    }

    /// Takes out an agent whose stream has ended.
    pub fn disconnect(&mut self, name: &str)
        ensures
            final(self)@ == (BrokerView {
                nodes: old(self)@.nodes.remove(name@),
                requests: old(self)@.requests,
            }),
    {
        remove_node(&mut self.volunteers, name);
    }

    /// Takes out the agents that have been silent for too long.
    pub fn sweep(&mut self, now: u64)
        ensures
            final(self)@ == (BrokerView {
                nodes: nodes::remembered(old(self)@.nodes, now),
                requests: old(self)@.requests,
            }),
    {
        retain_nodes(&mut self.volunteers, now);
    }

    /// The agents with their names, in no particular order.
    pub fn agents(&self) -> (list: Vec<NamedNode>)
        ensures
            nodes::lists_nodes(list@, self@.nodes),
    {
        all_nodes(&self.volunteers)
    }

    /// Lets a request wait for its answer.
    fn await_answer(&mut self, request_id: &str, ticket: u64)
        ensures
            final(self)@ == (BrokerView {
                nodes: old(self)@.nodes,
                requests: old(self)@.requests.insert(request_id@, ticket),
            }),
    {
        put_request(&mut self.pending_requests, request_id, ticket);
    }

    /// Lets a request wait no more.
    fn forget_request(&mut self, request_id: &str)
        ensures
            final(self)@ == (BrokerView {
                nodes: old(self)@.nodes,
                requests: old(self)@.requests.remove(request_id@),
            }),
    {
        let _ticket = take_request(&mut self.pending_requests, request_id);
    }
}

/// What is shown of an agent.
pub struct VolunteerStatus {
    /// Its name.
    pub id: String,
    /// How many whole seconds ago it was last heard of.
    pub last_heartbeat_seconds_ago: u64,
    /// The bits of its processor load in percent.
    pub cpu_usage: u32,
    /// The memory that it uses in bytes.
    pub memory_used: u64,
    /// How many requests it is serving.
    pub active_requests: u32,
    /// The bits of its load average.
    pub load_average: u32,
}

/// Whether a status is the one of an agent.
pub open spec fn status_is(status: VolunteerStatus, name: Seq<char>, node: Node, now: u64) -> bool {
    &&& status.id@ == name
    &&& status.last_heartbeat_seconds_ago == nodes::silence(node, now) / (SECOND_NS as int)
    &&& status.cpu_usage == node.cpu_usage
    &&& status.memory_used == node.memory_used
    &&& status.active_requests == node.active_requests
    &&& status.load_average == node.load_average
}

/// Shows all agents, each once, in no particular order.
pub fn list_volunteers(broker: &Broker, now: u64) -> (list: Vec<VolunteerStatus>)
    ensures
        forall|i: int, j: int| 0 <= i < j < list@.len() ==> list@[i].id@ != list@[j].id@,
        forall|i: int|
            0 <= i < list@.len() ==> broker@.nodes.contains_key((#[trigger] list@[i]).id@)
                && status_is(list@[i], list@[i].id@, broker@.nodes[list@[i].id@], now),
        forall|name: Seq<char>| #[trigger]
            broker@.nodes.contains_key(name) ==> exists|i: int|
                0 <= i < list@.len() && (#[trigger] list@[i]).id@ == name,
{
    let all = broker.agents();
    let mut list: Vec<VolunteerStatus> = Vec::new();
    let mut k: usize = 0;
    while k < all.len()
        invariant
            k <= all@.len(),
            list@.len() == k,
            forall|i: int|
                0 <= i < k ==> status_is(
                    #[trigger] list@[i],
                    all@[i].name@,
                    all@[i].node,
                    now,
                ),
        decreases all@.len() - k,
    {
        let agent = &all[k];
        list.push(
            VolunteerStatus {
                id: agent.name.clone(),
                last_heartbeat_seconds_ago: silent_for(&agent.node, now) / SECOND_NS,
                cpu_usage: agent.node.cpu_usage,
                memory_used: agent.node.memory_used,
                active_requests: agent.node.active_requests,
                load_average: agent.node.load_average,
            },
        );
        k = k + 1;
    }
    assert forall|i: int| 0 <= i < list@.len() implies broker@.nodes.contains_key(
        (#[trigger] list@[i]).id@,
    ) && status_is(list@[i], list@[i].id@, broker@.nodes[list@[i].id@], now) by {
        assert(status_is(list@[i], all@[i].name@, all@[i].node, now));
    }
    assert forall|i: int, j: int| 0 <= i < j < list@.len() implies list@[i].id@ != list@[j].id@ by {
        assert(status_is(list@[i], all@[i].name@, all@[i].node, now));
        assert(status_is(list@[j], all@[j].name@, all@[j].node, now));
    }
    assert forall|name: Seq<char>| #[trigger] broker@.nodes.contains_key(name) implies exists|
        i: int,
    |
        0 <= i < list@.len() && (#[trigger] list@[i]).id@ == name by {
        assert(nodes::is_listed(all@, name));
        let i = choose|i: int| 0 <= i < all@.len() && (#[trigger] all@[i]).name@ == name;
        assert(status_is(list@[i], all@[i].name@, all@[i].node, now));
    }
    list
}

// ── choosing an agent ───────────────────────────────────────────────────────
/// Whether bits are those of a 32-bit floating-point number that is no number.
pub open spec fn is_nan(bits: u32) -> bool {
    bits % 0x8000_0000 > 0x7f80_0000
}

/// The place of a 32-bit floating-point number in the order of all of them.
pub open spec fn float_rank(bits: u32) -> int {
    if bits < 0x8000_0000 {
        bits as int
    } else {
        -(bits - 0x8000_0000)
    }
}

/// Whether one 32-bit floating-point number is less than another, both given by
/// their bits.
pub open spec fn float_less(a: u32, b: u32) -> bool {
    !is_nan(a) && !is_nan(b) && float_rank(a) < float_rank(b)
}

/// Whether one 32-bit floating-point number is less than another, both given by
/// their bits.
pub fn is_float_less(a: u32, b: u32) -> (less: bool)
    ensures
        less == float_less(a, b),
{
    let a_rank: i64 = if a < 0x8000_0000 {
        a as i64
    } else {
        -((a - 0x8000_0000) as i64)
    };
    let b_rank: i64 = if b < 0x8000_0000 {
        b as i64
    } else {
        -((b - 0x8000_0000) as i64)
    };
    a % 0x8000_0000 <= 0x7f80_0000 && b % 0x8000_0000 <= 0x7f80_0000 && a_rank < b_rank
}

/// Whether an agent was heard of lately enough to get requests.
pub open spec fn is_healthy(node: Node, now: u64) -> bool {
    nodes::silence(node, now) <= HEALTHY_WITHIN_NS
}

/// Whether an agent gets the next request: it is healthy, and no healthy one is less
/// busy.
pub open spec fn is_best(
    name: Seq<char>,
    node: Node,
    map: Map<Seq<char>, Node>,
    now: u64,
) -> bool {
    &&& map.contains_key(name)
    &&& map[name] == node
    &&& is_healthy(node, now)
    &&& forall|other: Seq<char>| #[trigger]
        map.contains_key(other) && is_healthy(map[other], now) ==> !float_less(
            map[other].cpu_usage,
            node.cpu_usage,
        )
}

/// Whether no agent was heard of lately enough to get requests.
pub open spec fn none_is_healthy(map: Map<Seq<char>, Node>, now: u64) -> bool {
    forall|name: Seq<char>| #[trigger] map.contains_key(name) ==> !is_healthy(map[name], now)
}

/// Chooses the agent that gets the next request. Which of two that are equally busy
/// gets it is left open.
pub fn choose_agent(broker: &Broker, now: u64) -> (chosen: Option<NamedNode>)
    ensures
        match chosen {
            Some(agent) => is_best(agent.name@, agent.node, broker@.nodes, now),
            None => forall|name: Seq<char>| #[trigger]
                broker@.nodes.contains_key(name) ==> !is_healthy(broker@.nodes[name], now),
        },
        chosen is None <==> none_is_healthy(broker@.nodes, now),
{
    let all = broker.agents();
    let mut best: Option<usize> = None;
    let mut k: usize = 0;
    while k < all.len()
        invariant
            k <= all@.len(),
            nodes::lists_nodes(all@, broker@.nodes),
            match best {
                Some(b) => {
                    &&& b < k
                    &&& is_healthy(all@[b as int].node, now)
                    &&& forall|j: int|
                        0 <= j < k && is_healthy((#[trigger] all@[j]).node, now) ==> !float_less(
                            all@[j].node.cpu_usage,
                            all@[b as int].node.cpu_usage,
                        )
                },
                None => forall|j: int| 0 <= j < k ==> !is_healthy((#[trigger] all@[j]).node, now),
            },
        decreases all@.len() - k,
    {
        if silent_for(&all[k].node, now) <= HEALTHY_WITHIN_NS {
            best = match best {
                None => Some(k),
                Some(b) => if is_float_less(all[k].node.cpu_usage, all[b].node.cpu_usage) {
                    Some(k)
                } else {
                    Some(b)
                },
            };
        }
        k = k + 1;
    }
    assert forall|name: Seq<char>| #[trigger] broker@.nodes.contains_key(name) implies exists|
        i: int,
    |
        0 <= i < all@.len() && (#[trigger] all@[i]).name@ == name && all@[i].node
            == broker@.nodes[name] by {
        assert(nodes::is_listed(all@, name));
        let i = choose|i: int| 0 <= i < all@.len() && (#[trigger] all@[i]).name@ == name;
        assert(all@[i].node == broker@.nodes[name]);
    }
    match best {
        None => None,
        Some(b) => Some(NamedNode { name: all[b].name.clone(), node: all[b].node }),
    }
}

// ── passing a request on ────────────────────────────────────────────────────
/// Why a request got no answer from an agent.
#[derive(Clone, Copy, Debug, PartialEq, Eq, Structural)]
pub enum DispatchFailure {
    /// No agent is healthy.
    NoAgent,
    /// Its body could not be read.
    UnreadableBody,
    /// The agent was gone when it was sent.
    AgentGone,
    /// The agent went away before it answered.
    AnswerLost,
    /// The agent did not answer in time.
    TimedOut,
    /// The answer could not be read.
    UnreadableAnswer,
    /// No message can be built from the answer.
    InvalidAnswer,
}

impl DispatchFailure {
    /// The status code to answer with.
    pub fn status(&self) -> (code: u16)
        ensures
            code == (match *self {
                DispatchFailure::NoAgent => 503u16,
                DispatchFailure::UnreadableBody => 400,
                DispatchFailure::AgentGone => 500,
                DispatchFailure::AnswerLost => 500,
                DispatchFailure::TimedOut => 504,
                DispatchFailure::UnreadableAnswer => 500,
                DispatchFailure::InvalidAnswer => 500,
            }),
    {
        match self {
            DispatchFailure::NoAgent => 503,
            DispatchFailure::UnreadableBody => 400,
            DispatchFailure::AgentGone => 500,
            DispatchFailure::AnswerLost => 500,
            DispatchFailure::TimedOut => 504,
            DispatchFailure::UnreadableAnswer => 500,
            DispatchFailure::InvalidAnswer => 500,
        }
    }

    /// The text to answer with.
    pub fn text(&self) -> (words: String)
        ensures
            words@ == (match *self {
                DispatchFailure::NoAgent => "No healthy volunteers available"@,
                DispatchFailure::UnreadableBody => "Failed to read body"@,
                DispatchFailure::AgentGone => "Volunteer disconnected"@,
                DispatchFailure::AnswerLost => "Response channel dropped"@,
                DispatchFailure::TimedOut => "Request timed out"@,
                DispatchFailure::UnreadableAnswer => "Failed to decode response payload"@,
                DispatchFailure::InvalidAnswer => "Failed to construct internal response"@,
            }),
    {
        match self {
            DispatchFailure::NoAgent => "No healthy volunteers available".to_owned(),
            DispatchFailure::UnreadableBody => "Failed to read body".to_owned(),
            DispatchFailure::AgentGone => "Volunteer disconnected".to_owned(),
            DispatchFailure::AnswerLost => "Response channel dropped".to_owned(),
            DispatchFailure::TimedOut => "Request timed out".to_owned(),
            DispatchFailure::UnreadableAnswer => "Failed to decode response payload".to_owned(),
            DispatchFailure::InvalidAnswer => "Failed to construct internal response".to_owned(),
        }
    }
}

/// How far a request has come.
pub enum Dispatch {
    /// Its body is to be read.
    Reading(NamedNode),
    /// It is to be sent to an agent.
    Sending {
        /// The agent.
        agent: NamedNode,
        /// The frame that takes it there.
        frame: RequestFrame,
    },
    /// It waits for its answer.
    Waiting {
        /// The identifier of the request.
        request_id: String,
    },
    /// Its answer is to be read.
    Decoding,
    /// It has failed.
    Failed(DispatchFailure),
    /// It was answered.
    Answered(Answer),
}

/// The value of a [`Dispatch`].
pub enum DispatchView {
    /// See [`Dispatch::Reading`].
    Reading(Seq<char>, Node),
    /// See [`Dispatch::Sending`].
    Sending {
        /// The name of the agent.
        name: Seq<char>,
        /// The agent.
        node: Node,
        /// The frame that takes the request there.
        frame: messages::RequestFrameView,
    },
    /// See [`Dispatch::Waiting`].
    Waiting {
        /// The identifier of the request.
        request_id: Seq<char>,
    },
    /// See [`Dispatch::Decoding`].
    Decoding,
    /// See [`Dispatch::Failed`].
    Failed(DispatchFailure),
    /// See [`Dispatch::Answered`].
    Answered(messages::AnswerView),
}

impl View for Dispatch {
    type V = DispatchView;

    open spec fn view(&self) -> DispatchView {
        match *self {
            Dispatch::Reading(agent) => DispatchView::Reading(agent.name@, agent.node),
            Dispatch::Sending { agent, frame } => DispatchView::Sending {
                name: agent.name@,
                node: agent.node,
                frame: frame@,
            },
            Dispatch::Waiting { request_id } => DispatchView::Waiting { request_id: request_id@ },
            Dispatch::Decoding => DispatchView::Decoding,
            Dispatch::Failed(f) => DispatchView::Failed(f),
            Dispatch::Answered(answer) => DispatchView::Answered(answer@),
        }
    }
}

/// What happened to a request.
pub enum DispatchEvent {
    /// Its body was read.
    BodyRead {
        /// The number of the task that will wait for its answer.
        ticket: u64,
        /// The request.
        request: VisitorRequest,
    },
    /// Its body could not be read.
    BodyFailed,
    /// It was sent to the agent, or could not be.
    Sent(bool),
    /// Its answer came.
    AnswerCame,
    /// Its answer can come no more.
    AnswerDropped,
    /// Its answer did not come in time.
    TimedOut,
    /// Its answer was read.
    Decoded(ResponsePayload),
    /// Its answer could not be read.
    DecodeFailed,
}

impl DispatchView {
    /// The request after an event, given the identifier that it gets when its body
    /// has been read, and whether a response could be built from an answer that was
    /// read. An event that does not fit changes nothing.
    pub open spec fn after(self, event: DispatchEvent, fresh: u128, built: bool) -> DispatchView {
        match (self, event) {
            (DispatchView::Reading(name, node), DispatchEvent::BodyRead { ticket, request }) =>
                DispatchView::Sending {
                name,
                node,
                frame: messages::frame_of(name, ids::hyphenated_of(fresh), request),
            },
            (DispatchView::Reading(name, node), DispatchEvent::BodyFailed) => DispatchView::Failed(
                DispatchFailure::UnreadableBody,
            ),
            (DispatchView::Sending { name, node, frame }, DispatchEvent::Sent(ok)) => if ok {
                DispatchView::Waiting { request_id: frame.request_id }
            } else {
                DispatchView::Failed(DispatchFailure::AgentGone)
            },
            (DispatchView::Waiting { request_id }, DispatchEvent::AnswerCame) =>
                DispatchView::Decoding,
            (DispatchView::Waiting { request_id }, DispatchEvent::AnswerDropped) =>
                DispatchView::Failed(DispatchFailure::AnswerLost),
            (DispatchView::Waiting { request_id }, DispatchEvent::TimedOut) =>
                DispatchView::Failed(DispatchFailure::TimedOut),
            (DispatchView::Decoding, DispatchEvent::Decoded(payload)) => if built {
                DispatchView::Answered(messages::answer_of(payload))
            } else {
                DispatchView::Failed(DispatchFailure::InvalidAnswer)
            },
            (DispatchView::Decoding, DispatchEvent::DecodeFailed) => DispatchView::Failed(
                DispatchFailure::UnreadableAnswer,
            ),
            (view, _) => view,
        }
    }

    /// The requests that wait, after an event: one that is about to be sent waits,
    /// and one that was not sent or not answered in time waits no more. Where an answer
    /// can come no more, nothing is taken out: the entry was taken or replaced before.
    pub open spec fn requests_after(
        self,
        event: DispatchEvent,
        fresh: u128,
        requests: Map<Seq<char>, u64>,
    ) -> Map<Seq<char>, u64> {
        match (self, event) {
            (DispatchView::Reading(name, node), DispatchEvent::BodyRead { ticket, request }) =>
                requests.insert(ids::hyphenated_of(fresh), ticket),
            (DispatchView::Sending { name, node, frame }, DispatchEvent::Sent(ok)) => if ok {
                requests
            } else {
                requests.remove(frame.request_id)
            },
            (DispatchView::Waiting { request_id }, DispatchEvent::TimedOut) => requests.remove(
                request_id,
            ),
            _ => requests,
        }
    }
}

/// Starts to pass a request on.
pub fn dispatch_request(broker: &Broker, now: u64) -> (dispatch: Dispatch)
    ensures
        match dispatch@ {
            DispatchView::Reading(name, node) => is_best(name, node, broker@.nodes, now),
            DispatchView::Failed(f) => f is NoAgent && forall|name: Seq<char>|
                #![trigger broker@.nodes.contains_key(name)]
                broker@.nodes.contains_key(name) ==> !is_healthy(broker@.nodes[name], now),
            _ => false,
        },
        dispatch@ is Failed <==> none_is_healthy(broker@.nodes, now),
{
    match choose_agent(broker, now) {
        Some(agent) => Dispatch::Reading(agent),
        None => Dispatch::Failed(DispatchFailure::NoAgent),
    }
}

/// Whether an attempt to build a response from what an event brings ended as it may.
pub open spec fn may_build(event: DispatchEvent, built: bool) -> bool {
    event matches DispatchEvent::Decoded(payload) ==> http::may_end_as(
        built,
        messages::answer_of(payload).status,
        messages::answer_of(payload).headers,
    )
}

impl Dispatch {
    /// Takes in an event, given the identifier that the request gets when its body
    /// has been read, and whether a response could be built from an answer that was
    /// read.
    pub fn resume_with(self, event: DispatchEvent, broker: &mut Broker, fresh: u128, built: bool)
        -> (next: Dispatch)
        ensures
            next@ == self@.after(event, fresh, built),
            final(broker)@ == (BrokerView {
                nodes: old(broker)@.nodes,
                requests: self@.requests_after(event, fresh, old(broker)@.requests),
            }),
    {
        match (self, event) {
            (Dispatch::Reading(agent), DispatchEvent::BodyRead { ticket, request }) => {
                let request_id = hyphenated_text(fresh);
                broker.await_answer(request_id.as_str(), ticket);
                let frame = request_frame(agent.name.as_str(), request_id.as_str(), request);
                Dispatch::Sending { agent, frame }
            },
            (Dispatch::Reading(_), DispatchEvent::BodyFailed) => Dispatch::Failed(
                DispatchFailure::UnreadableBody,
            ),
            (Dispatch::Sending { agent: _, frame }, DispatchEvent::Sent(ok)) => {
                if ok {
                    Dispatch::Waiting { request_id: frame.request_id }
                } else {
                    broker.forget_request(frame.request_id.as_str());
                    Dispatch::Failed(DispatchFailure::AgentGone)
                }
            },
            (Dispatch::Waiting { request_id: _ }, DispatchEvent::AnswerCame) => Dispatch::Decoding,
            (Dispatch::Waiting { request_id: _ }, DispatchEvent::AnswerDropped) => Dispatch::Failed(
                DispatchFailure::AnswerLost,
            ),
            (Dispatch::Waiting { request_id }, DispatchEvent::TimedOut) => {
                broker.forget_request(request_id.as_str());
                Dispatch::Failed(DispatchFailure::TimedOut)
            },
            (Dispatch::Decoding, DispatchEvent::Decoded(payload)) => {
                if built {
                    Dispatch::Answered(visitor_answer(payload))
                } else {
                    Dispatch::Failed(DispatchFailure::InvalidAnswer)
                }
            },
            (Dispatch::Decoding, DispatchEvent::DecodeFailed) => Dispatch::Failed(
                DispatchFailure::UnreadableAnswer,
            ),
            (dispatch, _) => dispatch,
        }
    }

    /// Takes in an event. The request gets a random identifier when its body has been
    /// read, and fails where no response can be built from its answer. That no other
    /// request waits under the same identifier rests on chance.
    pub fn resume(self, event: DispatchEvent, broker: &mut Broker) -> (next: Dispatch)
        ensures
            exists|fresh: u128, built: bool|
                (fresh >> 76u128) & 0xf == 4 && (fresh >> 62u128) & 0x3 == 2 && may_build(
                    event,
                    built,
                ) && next@ == #[trigger] self@.after(event, fresh, built) && final(broker)@ == (
                BrokerView {
                    nodes: old(broker)@.nodes,
                    requests: self@.requests_after(event, fresh, old(broker)@.requests),
                }),
    {
        let fresh: u128 = random_id();
        let built = match &event {
            DispatchEvent::Decoded(payload) => can_build(
                low_bits(payload.status),
                &payload.headers,
            ),
            _ => false,
        };
        let ghost was = self@;
        let next = self.resume_with(event, broker, fresh, built);
        assert(next@ == was.after(event, fresh, built));
        next
    }
}

// ── laws ────────────────────────────────────────────────────────────────────
/// An answer reaches the one task that waits for it, and reaches it once: the same
/// answer again reaches nobody.
pub proof fn answers_arrive_once(
    broker: BrokerView,
    agent: Seq<char>,
    request_id: Seq<char>,
    ticket: u64,
    now: u64,
)
    requires
        broker.requests.contains_key(request_id),
        broker.requests[request_id] == ticket,
    ensures
        broker.effect(FrameKind::Response, agent, request_id, None) == FrameEffect::Answered(
            ticket,
        ),
        broker.after_frame(FrameKind::Response, agent, request_id, None, now).effect(
            FrameKind::Response,
            agent,
            request_id,
            None,
        ) == FrameEffect::UnknownRequest,
{
}

/// A request that was not sent, or not answered in time, leaves nothing behind: an
/// answer that comes late reaches nobody.
pub proof fn failed_requests_leave_nothing(
    broker: BrokerView,
    name: Seq<char>,
    node: Node,
    frame: messages::RequestFrameView,
    request_id: Seq<char>,
    agent: Seq<char>,
    fresh: u128,
)
    ensures
        ({
            let unsent = DispatchView::Sending { name, node, frame };
            let after = BrokerView {
                requests: unsent.requests_after(
                    DispatchEvent::Sent(false),
                    fresh,
                    broker.requests,
                ),
                ..broker
            };
            after.effect(FrameKind::Response, agent, frame.request_id, None)
                == FrameEffect::UnknownRequest
        }),
        ({
            let late = DispatchView::Waiting { request_id };
            let after = BrokerView {
                requests: late.requests_after(DispatchEvent::TimedOut, fresh, broker.requests),
                ..broker
            };
            after.effect(FrameKind::Response, agent, request_id, None)
                == FrameEffect::UnknownRequest
        }),
{
}

/// The order of floating-point numbers by their bits is strict: none is less than
/// itself, and less than less is less.
pub proof fn float_order_is_strict(a: u32, b: u32, c: u32)
    ensures
        !float_less(a, a),
        float_less(a, b) && float_less(b, c) ==> float_less(a, c),
{
}

} // verus!
