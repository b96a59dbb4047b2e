//! The broker and its agents: who gets a request, and what becomes of it.
use crate::http;
use crate::http::{Header, RawHeader};
use crate::ids;
use crate::mesh::agent;
use crate::mesh::agent::ServiceRequest;
use crate::mesh::broker;
use crate::mesh::broker::{
    Broker, BrokerView, Dispatch, DispatchEvent, DispatchFailure, DispatchView, FrameEffect, Load,
    VolunteerStatus,
};
use crate::mesh::messages;
use crate::mesh::messages::{
    Answer, FrameKind, RequestFrame, RequestFrameView, RequestPayload, ResponseFrame,
    ResponsePayload, VisitorRequest,
};
use crate::mesh::nodes;
use crate::mesh::nodes::Node;
use vstd::prelude::*;

verus! {

// ── choosing an agent ───────────────────────────────────────────────────────
/// A request goes to an agent that was heard of within the last thirty seconds. No other
/// one heard of as lately has a processor load strictly below that of the chosen one,
/// whatever their other figures are. The loads are the bits of floating-point numbers:
/// those from 0 to 0x7f80_0000 are the numbers from zero up, in their order, and those
/// from 0x8000_0000 to 0xff80_0000 are the numbers from zero down.
pub proof fn requests_go_to_the_least_busy(
    name: Seq<char>,
    node: Node,
    map: Map<Seq<char>, Node>,
    now: u64,
    other: Seq<char>,
)
    requires
        broker::is_best(name, node, map, now),
        map.contains_key(other),
        now - map[other].last_heartbeat <= 30_000_000_000,
    ensures
        map.contains_key(name),
        map[name] == node,
        now - node.last_heartbeat <= 30_000_000_000,
        node.cpu_usage <= 0x7f80_0000 && map[other].cpu_usage <= 0x7f80_0000 ==> node.cpu_usage
            <= map[other].cpu_usage,
        0x8000_0000 <= node.cpu_usage <= 0xff80_0000 && 0x8000_0000 <= map[other].cpu_usage
            <= 0xff80_0000 ==> node.cpu_usage >= map[other].cpu_usage,
        node.cpu_usage <= 0x7f80_0000 ==> !(0x8000_0000 < map[other].cpu_usage <= 0xff80_0000),
{
    assert(map.contains_key(other) && broker::is_healthy(map[other], now));
}

/// An agent heard of lately that is as little busy as every other one heard of lately may
/// be chosen, however many requests it serves and whatever memory it uses.
pub proof fn the_least_busy_may_be_chosen(
    name: Seq<char>,
    map: Map<Seq<char>, Node>,
    now: u64,
)
    requires
        map.contains_key(name),
        now - map[name].last_heartbeat <= 30_000_000_000,
        map[name].cpu_usage <= 0x7f80_0000,
        forall|other: Seq<char>| #[trigger]
            map.contains_key(other) && now - map[other].last_heartbeat <= 30_000_000_000
                ==> map[name].cpu_usage <= map[other].cpu_usage <= 0x7f80_0000,
    ensures
        broker::is_best(name, map[name], map, now),
{
    assert forall|other: Seq<char>| #[trigger]
        map.contains_key(other) && broker::is_healthy(
            map[other],
            now,
        ) implies !broker::float_less(map[other].cpu_usage, map[name].cpu_usage) by {
        assert(now - map[other].last_heartbeat <= 30_000_000_000);
    }
}

/// The order of processor loads is that of the numbers that the bits stand for; what is
/// no number is in no order.
pub proof fn loads_are_ordered_as_numbers(a: u32, b: u32)
    ensures
        a <= 0x7f80_0000 && b <= 0x7f80_0000 ==> (broker::float_less(a, b) <==> a < b),
        0x8000_0000 <= a <= 0xff80_0000 && 0x8000_0000 <= b <= 0xff80_0000 ==> (
        broker::float_less(a, b) <==> a > b),
        0x8000_0000 < a <= 0xff80_0000 && b <= 0x7f80_0000 ==> broker::float_less(a, b),
        a <= 0x7f80_0000 && 0x8000_0000 <= b <= 0xff80_0000 ==> !broker::float_less(a, b),
        a == 0x8000_0000 && b == 0 ==> !broker::float_less(a, b),
        0x7f80_0000 < a < 0x8000_0000 || a > 0xff80_0000 ==> !broker::float_less(a, b)
            && !broker::float_less(b, a),
{
}

/// An agent gets requests for thirty seconds after it was last heard of, to the
/// nanosecond, and is kept for sixty.
pub proof fn agents_are_healthy_for_30_seconds(
    map: Map<Seq<char>, Node>,
    name: Seq<char>,
    now: u64,
)
    ensures
        broker::is_healthy(map[name], now) <==> now <= map[name].last_heartbeat + 30_000_000_000,
        nodes::remembered(map, now).contains_key(name) <==> map.contains_key(name) && now
            <= map[name].last_heartbeat + 60_000_000_000,
        nodes::remembered(map, now).contains_key(name) ==> nodes::remembered(map, now)[name]
            == map[name],
        now >= map[name].last_heartbeat ==> nodes::silence(map[name], now) == now
            - map[name].last_heartbeat,
        now <= map[name].last_heartbeat ==> nodes::silence(map[name], now) == 0,
{
}

/// How long the broker and its agents wait, in seconds and nanoseconds.
pub proof fn waits_are_as_long_as_they_say()
    ensures
        broker::HEALTHY_WITHIN_NS == 30_000_000_000,
        broker::ANSWER_TIMEOUT_SECS == 15,
        broker::SWEEP_INTERVAL_SECS == 10,
        broker::SECOND_NS == 1_000_000_000,
        nodes::FORGET_AFTER_NS == 60_000_000_000,
        agent::HEARTBEAT_SECS == 10,
        agent::SERVICE_TIMEOUT_SECS == 10,
{
}

// ── frames ──────────────────────────────────────────────────────────────────
/// After a heartbeat the broker holds what the agent said, and when; its channel and all
/// other agents are as before, and so are the requests.
pub proof fn heartbeats_are_taken_in(
    before: BrokerView,
    agent: Seq<char>,
    request_id: Seq<char>,
    load: Load,
    now: u64,
    other: Seq<char>,
)
    requires
        before.nodes.contains_key(agent),
    ensures
        ({
            let after = before.after_frame(
                FrameKind::Heartbeat,
                agent,
                request_id,
                Some(load),
                now,
            );
            &&& before.effect(FrameKind::Heartbeat, agent, request_id, Some(load))
                == FrameEffect::Refreshed
            &&& after.nodes.contains_key(agent)
            &&& after.nodes[agent].last_heartbeat == now
            &&& after.nodes[agent].cpu_usage == load.cpu_usage
            &&& after.nodes[agent].memory_used == load.memory_used
            &&& after.nodes[agent].active_requests == load.active_requests
            &&& after.nodes[agent].load_average == load.load_average
            &&& after.nodes[agent].channel == before.nodes[agent].channel
            &&& after.requests == before.requests
            &&& other != agent ==> after.nodes.contains_key(other) == before.nodes.contains_key(
                other,
            ) && after.nodes[other] == before.nodes[other]
        }),
{
}

/// A heartbeat that cannot be read, or is of an agent that is not known, changes nothing,
/// and neither does a frame that only the broker or a new agent may send.
pub proof fn other_frames_change_nothing(
    before: BrokerView,
    agent: Seq<char>,
    request_id: Seq<char>,
    load: Option<Load>,
    now: u64,
)
    ensures
        before.effect(FrameKind::Heartbeat, agent, request_id, None) == FrameEffect::Unreadable,
        before.after_frame(FrameKind::Heartbeat, agent, request_id, None, now) == before,
        !before.nodes.contains_key(agent) ==> before.after_frame(
            FrameKind::Heartbeat,
            agent,
            request_id,
            load,
            now,
        ) == before,
        !before.nodes.contains_key(agent) && load is Some ==> before.effect(
            FrameKind::Heartbeat,
            agent,
            request_id,
            load,
        ) == FrameEffect::UnknownAgent,
        before.effect(FrameKind::Register, agent, request_id, load) == FrameEffect::Unexpected,
        before.effect(FrameKind::Request, agent, request_id, load) == FrameEffect::Unexpected,
        before.after_frame(FrameKind::Register, agent, request_id, load, now) == before,
        before.after_frame(FrameKind::Request, agent, request_id, load, now) == before,
{
}

/// An answer goes to the task that waits for that request, which then waits no more. No
/// other request and no agent is touched. One that nobody waits for changes nothing.
pub proof fn answers_go_to_who_waits(
    before: BrokerView,
    agent: Seq<char>,
    request_id: Seq<char>,
    load: Option<Load>,
    now: u64,
    other: Seq<char>,
)
    ensures
        ({
            let after = before.after_frame(FrameKind::Response, agent, request_id, load, now);
            let effect = before.effect(FrameKind::Response, agent, request_id, load);
            &&& before.requests.contains_key(request_id) ==> effect == FrameEffect::Answered(
                before.requests[request_id],
            )
            &&& !before.requests.contains_key(request_id) ==> effect == FrameEffect::UnknownRequest
                && after == before
            &&& !after.requests.contains_key(request_id)
            &&& other != request_id ==> after.requests.contains_key(other)
                == before.requests.contains_key(other) && after.requests[other]
                == before.requests[other]
            &&& after.nodes == before.nodes
        }),
{
}

/// What is shown of an agent is what is known of it, and how many whole seconds ago it
/// was heard of.
pub proof fn statuses_show_the_agent(
    status: VolunteerStatus,
    name: Seq<char>,
    node: Node,
    now: u64,
)
    requires
        broker::status_is(status, name, node, now),
    ensures
        status.id@ == name,
        status.cpu_usage == node.cpu_usage,
        status.memory_used == node.memory_used,
        status.active_requests == node.active_requests,
        status.load_average == node.load_average,
        now >= node.last_heartbeat ==> status.last_heartbeat_seconds_ago * 1_000_000_000 <= now
            - node.last_heartbeat < (status.last_heartbeat_seconds_ago + 1) * 1_000_000_000,
        now <= node.last_heartbeat ==> status.last_heartbeat_seconds_ago == 0,
{
}

// ── passing a request on ────────────────────────────────────────────────────
/// A request whose body was read is to be sent to the agent that was chosen for it, under
/// a new identifier, and waits for its answer under that identifier and no other.
pub proof fn requests_are_sent_as_they_came(
    name: Seq<char>,
    node: Node,
    ticket: u64,
    request: VisitorRequest,
    fresh: u128,
    built: bool,
    waiting: Map<Seq<char>, u64>,
    other: Seq<char>,
)
    ensures
        ({
            let start = DispatchView::Reading(name, node);
            let event = DispatchEvent::BodyRead { ticket, request };
            let id = ids::hyphenated_of(fresh);
            let waits = start.requests_after(event, fresh, waiting);
            &&& start.after(event, fresh, built) matches DispatchView::Sending {
                name: to,
                node: at,
                frame,
            }
            &&& to == name
            &&& at == node
            &&& frame.volunteer_id == name
            &&& frame.request_id == id
            &&& frame.kind is Request
            &&& frame.payload.method == request.method@
            &&& frame.payload.uri == request.uri@
            &&& frame.payload.body == request.body@
            &&& waits.contains_key(id)
            &&& waits[id] == ticket
            &&& other != id ==> waits.contains_key(other) == waiting.contains_key(other)
                && waits[other] == waiting[other]
        }),
{
}

/// A request that was sent waits under the identifier of its frame; one that could not be
/// sent has failed, and waits no more.
pub proof fn sent_requests_wait(
    name: Seq<char>,
    node: Node,
    frame: RequestFrameView,
    fresh: u128,
    built: bool,
    waiting: Map<Seq<char>, u64>,
    other: Seq<char>,
)
    ensures
        ({
            let start = DispatchView::Sending { name, node, frame };
            let gone = start.requests_after(DispatchEvent::Sent(false), fresh, waiting);
            &&& start.after(DispatchEvent::Sent(true), fresh, built) == (DispatchView::Waiting {
                request_id: frame.request_id,
            })
            &&& start.requests_after(DispatchEvent::Sent(true), fresh, waiting) == waiting
            &&& start.after(DispatchEvent::Sent(false), fresh, built) == DispatchView::Failed(
                DispatchFailure::AgentGone,
            )
            &&& !gone.contains_key(frame.request_id)
            &&& other != frame.request_id ==> gone.contains_key(other) == waiting.contains_key(
                other,
            ) && gone[other] == waiting[other]
        }),
{
}

/// A request that waits ends in one of three ways: its answer comes and is to be read, is
/// lost, or does not come in time; then, and only then, it waits no more.
pub proof fn waiting_ends_in_three_ways(
    request_id: Seq<char>,
    fresh: u128,
    built: bool,
    waiting: Map<Seq<char>, u64>,
    other: Seq<char>,
)
    ensures
        ({
            let start = DispatchView::Waiting { request_id };
            let late = start.requests_after(DispatchEvent::TimedOut, fresh, waiting);
            &&& start.after(DispatchEvent::AnswerCame, fresh, built) is Decoding
            &&& start.after(DispatchEvent::AnswerDropped, fresh, built) == DispatchView::Failed(
                DispatchFailure::AnswerLost,
            )
            &&& start.after(DispatchEvent::TimedOut, fresh, built) == DispatchView::Failed(
                DispatchFailure::TimedOut,
            )
            &&& start.requests_after(DispatchEvent::AnswerCame, fresh, waiting) == waiting
            &&& start.requests_after(DispatchEvent::AnswerDropped, fresh, waiting) == waiting
            &&& !late.contains_key(request_id)
            &&& other != request_id ==> late.contains_key(other) == waiting.contains_key(other)
                && late[other] == waiting[other]
        }),
{
}

/// An answer that was read reaches the visitor with the status code, the body and the
/// headers that came; where no message can be built from it, the request has failed.
pub proof fn answers_reach_the_visitor(
    payload: ResponsePayload,
    fresh: u128,
    built: bool,
    waiting: Map<Seq<char>, u64>,
)
    ensures
        ({
            let event = DispatchEvent::Decoded(payload);
            let next = DispatchView::Decoding.after(event, fresh, built);
            &&& built ==> {
                &&& next matches DispatchView::Answered(answer)
                &&& payload.status < 0x1_0000 ==> answer.status == payload.status
                &&& answer.body == payload.body@
                &&& answer.headers.len() == payload.headers@.len()
                &&& forall|i: int|
                    0 <= i < payload.headers@.len() ==> (#[trigger] answer.headers[i]).0
                        == payload.headers@[i].name@ && answer.headers[i].1
                        == payload.headers@[i].value@
            }
            &&& !built ==> next == DispatchView::Failed(DispatchFailure::InvalidAnswer)
            &&& DispatchView::Decoding.after(DispatchEvent::DecodeFailed, fresh, built)
                == DispatchView::Failed(DispatchFailure::UnreadableAnswer)
            &&& DispatchView::Decoding.requests_after(event, fresh, waiting) == waiting
            &&& DispatchView::Decoding.requests_after(DispatchEvent::DecodeFailed, fresh, waiting)
                == waiting
        }),
{
}

/// A request whose body cannot be read has failed, and does not wait.
pub proof fn unreadable_requests_fail(
    name: Seq<char>,
    node: Node,
    fresh: u128,
    built: bool,
    waiting: Map<Seq<char>, u64>,
)
    ensures
        DispatchView::Reading(name, node).after(DispatchEvent::BodyFailed, fresh, built)
            == DispatchView::Failed(DispatchFailure::UnreadableBody),
        DispatchView::Reading(name, node).requests_after(
            DispatchEvent::BodyFailed,
            fresh,
            waiting,
        ) == waiting,
{
}

/// A request that has failed or was answered stays so, and nothing waits for it or
/// ceases to wait on its account.
pub proof fn ended_requests_stay(
    failure: DispatchFailure,
    answer: messages::AnswerView,
    event: DispatchEvent,
    fresh: u128,
    built: bool,
    waiting: Map<Seq<char>, u64>,
)
    ensures
        DispatchView::Failed(failure).after(event, fresh, built) == DispatchView::Failed(failure),
        DispatchView::Answered(answer).after(event, fresh, built) == DispatchView::Answered(answer),
        DispatchView::Failed(failure).requests_after(event, fresh, waiting) == waiting,
        DispatchView::Answered(answer).requests_after(event, fresh, waiting) == waiting,
{
}

/// An event that does not fit leaves a request as it is, and what waits too.
pub proof fn dispatches_heed_only_what_fits(
    name: Seq<char>,
    node: Node,
    frame: RequestFrameView,
    request_id: Seq<char>,
    event: DispatchEvent,
    fresh: u128,
    built: bool,
    waiting: Map<Seq<char>, u64>,
)
    ensures
        ({
            let start = DispatchView::Reading(name, node);
            !(event is BodyRead || event is BodyFailed) ==> start.after(event, fresh, built)
                == start && start.requests_after(event, fresh, waiting) == waiting
        }),
        ({
            let start = DispatchView::Sending { name, node, frame };
            !(event is Sent) ==> start.after(event, fresh, built) == start && start.requests_after(
                event,
                fresh,
                waiting,
            ) == waiting
        }),
        ({
            let start = DispatchView::Waiting { request_id };
            !(event is AnswerCame || event is AnswerDropped || event is TimedOut) ==> start.after(
                event,
                fresh,
                built,
            ) == start && start.requests_after(event, fresh, waiting) == waiting
        }),
        !(event is Decoded || event is DecodeFailed) ==> DispatchView::Decoding.after(
            event,
            fresh,
            built,
        ) is Decoding,
        DispatchView::Decoding.requests_after(event, fresh, waiting) == waiting,
{
}

/// A response is built only with a status code of three digits and with headers that have
/// a name and whose values have no control characters but tabs.
pub proof fn responses_are_built_where_they_can_be(
    payload: ResponsePayload,
    built: bool,
    i: int,
    k: int,
)
    requires
        broker::may_build(DispatchEvent::Decoded(payload), built),
        payload.status < 0x1_0000,
        0 <= i < payload.headers@.len(),
        0 <= k < payload.headers@[i].value@.len(),
    ensures
        built ==> {
            let c = payload.headers@[i].value@[k];
            &&& 100 <= payload.status <= 999
            &&& payload.headers@[i].name@.len() > 0
            &&& (c as u32 >= 32 && c as u32 != 127) || c as u32 == 9
        },
{
    let pairs = messages::answer_of(payload).headers;
    if built {
        assert(http::is_header(pairs[i].0, pairs[i].1));
    }
}

/// A response is built with a status code of three digits and with headers whose names are
/// tokens of no more than 65535 characters and whose values have no control characters but
/// tabs, where there are no more than 6554 of them.
pub proof fn good_responses_are_built(payload: ResponsePayload, built: bool)
    requires
        broker::may_build(DispatchEvent::Decoded(payload), built),
        100 <= payload.status <= 999,
        payload.headers@.len() <= 6554,
        forall|i: int|
            0 <= i < payload.headers@.len() ==> http::is_token((#[trigger] payload.headers@[i]).name@)
                && payload.headers@[i].name@.len() <= 65535,
        forall|i: int, k: int|
            0 <= i < payload.headers@.len() && 0 <= k < payload.headers@[i].value@.len() ==> {
                let c = #[trigger] payload.headers@[i].value@[k];
                (c as u32 >= 32 && c as u32 != 127) || c == '\t'
            },
    ensures
        built,
{
    let answer = messages::answer_of(payload);
    assert forall|i: int| 0 <= i < answer.headers.len() implies http::is_header(
        (#[trigger] answer.headers[i]).0,
        answer.headers[i].1,
    ) by {
        let value = payload.headers@[i].value@;
        assert(answer.headers[i] == (payload.headers@[i].name@, value));
        assert forall|k: int| 0 <= k < value.len() implies ((#[trigger] value[k]) as u32 >= 32
            && value[k] as u32 != 127) || value[k] == '\t' by {
            let c = payload.headers@[i].value@[k];
            assert((c as u32 >= 32 && c as u32 != 127) || c == '\t');
        }
    }
}

/// Names of letters, digits and hyphens are tokens; what is empty or has a blank, a colon or
/// a slash is none.
pub proof fn names_of_letters_are_tokens(s: Seq<char>)
    ensures
        s.len() > 0 && (forall|i: int|
            0 <= i < s.len() ==> {
                let c = #[trigger] s[i];
                '0' <= c <= '9' || 'A' <= c <= 'Z' || 'a' <= c <= 'z' || c == '-'
            }) ==> http::is_token(s),
        http::is_token(s) ==> s.len() > 0 && !s.contains(' ') && !s.contains(':') && !s.contains(
            '/',
        ),
{
    if s.len() > 0 && (forall|i: int|
        0 <= i < s.len() ==> {
            let c = #[trigger] s[i];
            '0' <= c <= '9' || 'A' <= c <= 'Z' || 'a' <= c <= 'z' || c == '-'
        }) {
        assert forall|i: int| 0 <= i < s.len() implies http::is_token_char(#[trigger] s[i]) by {
            let c = s[i];
            assert('0' <= c <= '9' || 'A' <= c <= 'Z' || 'a' <= c <= 'z' || c == '-');
        }
    }
}

/// With a status code of three digits and no headers a response is always built.
pub proof fn bare_responses_are_built(payload: ResponsePayload, built: bool)
    requires
        broker::may_build(DispatchEvent::Decoded(payload), built),
        payload.headers@.len() == 0,
        payload.status < 0x1_0000,
    ensures
        built <==> 100 <= payload.status <= 999,
{
}

// ── headers ─────────────────────────────────────────────────────────────────
/// Whether bytes have a text: each is a visible character of ASCII, a blank or a tab.
pub open spec fn has_text(bytes: Seq<u8>) -> bool {
    forall|k: int| 0 <= k < bytes.len() ==> 32 <= #[trigger] bytes[k] <= 126 || bytes[k] == 9
}

/// Of the headers with a name, the last one whose value has a text is passed on, byte for
/// byte. One whose value has none is passed over.
pub proof fn the_last_header_counts(list: Seq<RawHeader>, n: nat, i: int)
    requires
        0 <= i < n <= list.len(),
        has_text(list[i].value@),
        forall|j: int|
            i < j < n && (#[trigger] list[j]).name@ == list[i].name@ ==> !has_text(list[j].value@),
    ensures
        ({
            let shown = http::shown_headers(list, n);
            let name = list[i].name@;
            &&& shown.contains_key(name)
            &&& shown[name].len() == list[i].value@.len()
            &&& forall|k: int|
                0 <= k < list[i].value@.len() ==> #[trigger] shown[name][k] as u32
                    == list[i].value@[k] as u32
        }),
    decreases n,
{
    let last = list[n - 1];
    if i < n - 1 {
        the_last_header_counts(list, (n - 1) as nat, i);
        if last.name@ == list[i].name@ {
            assert(!has_text(last.value@));
            assert(!http::is_visible(last.value@));
        }
    } else {
        assert(http::is_visible(last.value@));
        let shown = http::shown_headers(list, n);
        assert(shown[last.name@] == http::ascii_text(last.value@));
    }
}

/// Only headers that came, and whose value has a text, are passed on.
pub proof fn passed_headers_came(list: Seq<RawHeader>, n: nat, name: Seq<char>) -> (i: int)
    requires
        n <= list.len(),
        http::shown_headers(list, n).contains_key(name),
    ensures
        0 <= i < n,
        list[i].name@ == name,
        has_text(list[i].value@),
    decreases n,
{
    if n > 0 {
        let last = list[n - 1];
        if http::is_visible(last.value@) && last.name@ == name {
            assert(has_text(last.value@));
            n - 1
        } else {
            passed_headers_came(list, (n - 1) as nat, name)
        }
    } else {
        0
    }
}

/// Of the headers of a list with a name, the last one counts, and nothing else is in it.
pub proof fn the_last_of_a_list_counts(list: Seq<Header>, n: nat, i: int, name: Seq<char>)
    requires
        0 <= i < n <= list.len(),
        forall|j: int| i < j < n ==> (#[trigger] list[j]).name@ != list[i].name@,
        forall|j: int| 0 <= j < n ==> (#[trigger] list[j]).name@ != name,
    ensures
        http::header_map(list, n).contains_key(list[i].name@),
        http::header_map(list, n)[list[i].name@] == list[i].value@,
        !http::header_map(list, n).contains_key(name),
    decreases n,
{
    assert(list[n - 1].name@ != name);
    lemma_not_in_list(list, n, name);
    if i < n - 1 {
        the_last_of_a_list_counts(list, (n - 1) as nat, i, name);
        assert(list[n - 1].name@ != list[i].name@);
    }
}

proof fn lemma_not_in_list(list: Seq<Header>, n: nat, name: Seq<char>)
    requires
        n <= list.len(),
        forall|j: int| 0 <= j < n ==> (#[trigger] list[j]).name@ != name,
    ensures
        !http::header_map(list, n).contains_key(name),
    decreases n,
{
    if n > 0 {
        lemma_not_in_list(list, (n - 1) as nat, name);
        assert(list[n - 1].name@ != name);
    }
}

/// An answer is shown with its status code, its body and all its headers in their order.
pub proof fn answers_show_what_they_hold(got: Answer, sent: ResponsePayload, i: int)
    requires
        got@ == messages::answer_of(sent),
        sent.status < 0x1_0000,
    ensures
        got.status == sent.status,
        got.body@ == sent.body@,
        got.headers@.len() == sent.headers@.len(),
        0 <= i < sent.headers@.len() ==> got.headers@[i].name@ == sent.headers@[i].name@
            && got.headers@[i].value@ == sent.headers@[i].value@,
{
    let one = http::header_pairs(got.headers@);
    let two = http::header_pairs(sent.headers@);
    assert(got@.headers == one);
    assert(one.len() == got.headers@.len());
    assert(two.len() == sent.headers@.len());
    if 0 <= i < sent.headers@.len() {
        assert(one[i] == two[i]);
    }
}

/// A frame to the broker shows its fields.
pub proof fn replies_show_what_they_hold(frame: ResponseFrame)
    ensures
        frame@.volunteer_id == frame.volunteer_id@,
        frame@.request_id == frame.request_id@,
        frame@.kind == frame.kind,
        frame@.payload.status == frame.payload.status,
        frame@.payload.body == frame.payload.body@,
        frame@.payload.headers == http::header_map(
            frame.payload.headers@,
            frame.payload.headers@.len(),
        ),
{
}

/// How far a request has come is shown with all that belongs to it.
pub proof fn dispatches_show_their_state(dispatch: Dispatch)
    ensures
        match dispatch {
            Dispatch::Reading(agent) => dispatch@ == DispatchView::Reading(agent.name@, agent.node),
            Dispatch::Sending { agent, frame } => dispatch@ == (DispatchView::Sending {
                name: agent.name@,
                node: agent.node,
                frame: frame@,
            }),
            Dispatch::Waiting { request_id } => dispatch@ == (DispatchView::Waiting {
                request_id: request_id@,
            }),
            Dispatch::Decoding => dispatch@ == DispatchView::Decoding,
            Dispatch::Failed(failure) => dispatch@ == DispatchView::Failed(failure),
            Dispatch::Answered(answer) => dispatch@ == DispatchView::Answered(answer@),
        },
{
}

/// A frame to an agent shows its fields, and takes the visitor's request along.
pub proof fn frames_hold_what_they_show(
    frame: RequestFrame,
    agent: Seq<char>,
    request_id: Seq<char>,
    request: VisitorRequest,
)
    requires
        frame@ == messages::frame_of(agent, request_id, request),
    ensures
        frame.volunteer_id@ == agent,
        frame.request_id@ == request_id,
        frame.kind is Request,
        frame.payload.method@ == request.method@,
        frame.payload.uri@ == request.uri@,
        frame.payload.body@ == request.body@,
        http::header_map(frame.payload.headers@, frame.payload.headers@.len()) =~= http::shown_headers(
            request.headers@,
            request.headers@.len(),
        ),
{
    assert(frame@.payload.method == request.method@);
}

// ── the agent ───────────────────────────────────────────────────────────────
/// The service is asked at its own address followed by what the visitor asked for, with
/// the method, the headers and the body that came. An empty body is none.
pub proof fn the_service_is_asked_what_came(
    asked: ServiceRequest,
    target: Seq<char>,
    request: RequestPayload,
)
    requires
        agent::asks_service(asked, target, request),
    ensures
        asked.url@ == target + request.uri@,
        asked.headers@ == request.headers@,
        asked.method@ == request.method@ || asked.method@ == "GET"@,
        request.method@ == "POST"@ || request.method@ == "PUT"@ || request.method@ == "DELETE"@
            || request.method@ == "PATCH"@ || request.method@ == "HEAD"@ ==> asked.method@
            == request.method@,
        request.method@.len() == 0 || request.method@.contains(' ') ==> asked.method@ == "GET"@,
        request.body@.len() == 0 <==> asked.body is None,
        asked.body matches Some(body) ==> body@ == request.body@,
{
    reveal_strlit("POST");
    reveal_strlit("PUT");
    reveal_strlit("DELETE");
    reveal_strlit("PATCH");
    reveal_strlit("HEAD");
    if request.method@.contains(' ') {
        let i = choose|i: int| 0 <= i < request.method@.len() && request.method@[i] == ' ';
        assert(!http::is_token_char(request.method@[i]));
    }
}

/// The answer for a service that was not reached says who was asked and what went wrong,
/// as plain text.
pub proof fn fallbacks_say_what_went_wrong(agent_id: Seq<char>, error: Seq<char>, name: Seq<char>)
    ensures
        agent::fallback_words(agent_id, error) == "Mock Response from Volunteer Agent "@ + agent_id
            + "! (Failed proxy: "@ + error + ")"@,
        agent::plain_text_headers().contains_key(name) <==> name == "content-type"@,
        agent::plain_text_headers()["content-type"@] == "text/plain"@,
{
}

// ── calls ───────────────────────────────────────────────────────────────────
/// A frame to an agent names the agent and the request, and takes along what the visitor
/// asked, word for word.
pub proof fn frames_take_the_request_along(
    name: &str,
    id: &str,
    request: VisitorRequest,
    frame: RequestFrame,
)
    requires
        call_ensures(messages::request_frame, (name, id, request), frame),
    ensures
        frame.volunteer_id@ == name@,
        frame.request_id@ == id@,
        frame.kind is Request,
        frame.payload.method@ == request.method@,
        frame.payload.uri@ == request.uri@,
        frame.payload.body@ == request.body@,
        http::header_map(frame.payload.headers@, frame.payload.headers@.len())
            == http::shown_headers(request.headers@, request.headers@.len()),
{
    frames_hold_what_they_show(frame, name@, id@, request);
}

/// A frame to the broker names the agent and the request, and takes the answer along.
pub proof fn replies_take_the_answer_along(
    name: &str,
    id: &str,
    payload: ResponsePayload,
    frame: ResponseFrame,
)
    requires
        call_ensures(messages::response_frame, (name, id, payload), frame),
    ensures
        frame.volunteer_id@ == name@,
        frame.request_id@ == id@,
        frame.kind is Response,
        frame.payload.status == payload.status,
        frame.payload.body@ == payload.body@,
        frame.payload@.headers == payload@.headers,
{
    replies_show_what_they_hold(frame);
    assert(frame@.payload == payload@);
}

/// The visitor gets the status code, the headers and the body that came.
pub proof fn visitors_get_what_came(sent: ResponsePayload, got: Answer, i: int)
    requires
        call_ensures(messages::visitor_answer, (sent,), got),
        sent.status < 0x1_0000,
    ensures
        got.status == sent.status,
        got.body@ == sent.body@,
        got.headers@.len() == sent.headers@.len(),
        0 <= i < sent.headers@.len() ==> got.headers@[i].name@ == sent.headers@[i].name@
            && got.headers@[i].value@ == sent.headers@[i].value@,
{
    answers_show_what_they_hold(got, sent, i);
}

/// The service is asked at its address for what came, and its answer is passed on with
/// its status code and its body. Only requests are acted on.
pub proof fn services_are_asked_and_answer(
    target: &str,
    request: RequestPayload,
    asked: ServiceRequest,
    status: u16,
    headers: Vec<RawHeader>,
    body: Vec<u8>,
    reply: ResponsePayload,
    kind: FrameKind,
    acted_on: bool,
)
    requires
        call_ensures(agent::service_request, (target, request), asked),
        call_ensures(agent::service_reply, (status, &headers, body), reply),
        call_ensures(agent::is_for_service, (kind,), acted_on),
    ensures
        asked.url@ == target@ + request.uri@,
        asked.headers@ == request.headers@,
        request.body@.len() == 0 <==> asked.body is None,
        asked.body matches Some(sent) ==> sent@ == request.body@,
        http::is_token(request.method@) ==> asked.method@ == request.method@,
        !http::is_token(request.method@) ==> asked.method@ == "GET"@,
        reply.status == status,
        reply.body@ == body@,
        http::header_map(reply.headers@, reply.headers@.len()) == http::shown_headers(
            headers@,
            headers@.len(),
        ),
        acted_on <==> kind is Request,
{
    let shown = reply@;
    assert(shown.status == reply.status);
}

/// The answer for a service that was not reached is a success in plain text that names
/// the agent and the error.
pub proof fn fallbacks_succeed(name: &str, error: &str, reply: ResponsePayload)
    requires
        call_ensures(agent::fallback_reply, (name, error), reply),
    ensures
        reply.status == 200,
        reply.body@ == vstd::utf8::encode_utf8(
            "Mock Response from Volunteer Agent "@ + name@ + "! (Failed proxy: "@ + error@ + ")"@,
        ),
        reply@.headers == Map::<Seq<char>, Seq<char>>::empty().insert(
            "content-type"@,
            "text/plain"@,
        ),
{
    let shown = reply@;
    assert(shown.status == reply.status);
}

/// Methods and status codes are passed on as they are where they can be; a method that is
/// none becomes `GET`, and a code without three digits becomes 500.
pub proof fn heads_are_passed_on(
    method: &str,
    forwarded: String,
    status: u16,
    code: u16,
    list: Vec<RawHeader>,
    headers: Vec<Header>,
)
    requires
        call_ensures(http::forward_method, (method,), forwarded),
        call_ensures(http::forward_status, (status,), code),
        call_ensures(http::forward_headers, (&list,), headers),
    ensures
        http::is_token(method@) ==> forwarded@ == method@,
        !http::is_token(method@) ==> forwarded@ == "GET"@,
        100 <= status <= 999 ==> code == status,
        status < 100 || status > 999 ==> code == 500,
        http::header_map(headers@, headers@.len()) == http::shown_headers(list@, list@.len()),
{
}

/// How long an agent has been silent is the time since it was last heard of; it is kept
/// for sixty seconds.
pub proof fn silences_are_measured(node: Node, now: u64, nanos: u64, kept: bool)
    requires
        call_ensures(nodes::silent_for, (&node, now), nanos),
        call_ensures(nodes::is_remembered, (&node, now), kept),
    ensures
        now >= node.last_heartbeat ==> nanos == now - node.last_heartbeat,
        now <= node.last_heartbeat ==> nanos == 0,
        kept <==> now <= node.last_heartbeat + 60_000_000_000,
{
}

/// The order of processor loads, and the lower bits of a status code, as calls give them.
pub proof fn numbers_are_taken_for_what_they_are(a: u32, b: u32, less: bool, status: u32, code: u16)
    requires
        call_ensures(broker::is_float_less, (a, b), less),
        call_ensures(messages::low_bits, (status,), code),
    ensures
        a <= 0x7f80_0000 && b <= 0x7f80_0000 ==> (less <==> a < b),
        0x8000_0000 <= a <= 0xff80_0000 && 0x8000_0000 <= b <= 0xff80_0000 ==> (less <==> a > b),
        0x8000_0000 < a <= 0xff80_0000 && b <= 0x7f80_0000 ==> less,
        a <= 0x7f80_0000 && 0x8000_0000 <= b <= 0xff80_0000 ==> !less,
        code == status % 0x1_0000,
{
    loads_are_ordered_as_numbers(a, b);
}

/// A request goes on as it is stated.
pub proof fn dispatches_go_on_as_stated(
    dispatch: Dispatch,
    event: DispatchEvent,
    broker: &mut Broker,
    fresh: u128,
    built: bool,
    next: Dispatch,
)
    requires
        call_ensures(Dispatch::resume_with, (dispatch, event, broker, fresh, built), next),
    ensures
        next@ == dispatch@.after(event, fresh, built),
        final(broker)@.nodes == old(broker)@.nodes,
        final(broker)@.requests == dispatch@.requests_after(event, fresh, old(broker)@.requests),
{
}

/// Only an agent whose first frame registers it is let in.
pub proof fn only_the_registered_are_let_in(first: Option<FrameKind>, verdict: Result<(), String>)
    requires
        call_ensures(broker::let_in, (first,), verdict),
    ensures
        verdict is Ok <==> first == Some(FrameKind::Register),
        first is None ==> verdict is Err && verdict->Err_0@ == "Stream closed before REGISTER"@,
        first matches Some(kind) ==> !(kind is Register) ==> verdict is Err && verdict->Err_0@
            == "First frame must be REGISTER"@,
{
}

/// Failures are answered with their status codes and their words.
pub proof fn failures_are_answered(failure: DispatchFailure, code: u16, words: String)
    requires
        call_ensures(DispatchFailure::status, (&failure,), code),
        call_ensures(DispatchFailure::text, (&failure,), words),
    ensures
        failure is NoAgent ==> code == 503 && words@ == "No healthy volunteers available"@,
        failure is UnreadableBody ==> code == 400 && words@ == "Failed to read body"@,
        failure is AgentGone ==> code == 500 && words@ == "Volunteer disconnected"@,
        failure is AnswerLost ==> code == 500 && words@ == "Response channel dropped"@,
        failure is TimedOut ==> code == 504 && words@ == "Request timed out"@,
        failure is UnreadableAnswer ==> code == 500 && words@
            == "Failed to decode response payload"@,
        failure is InvalidAnswer ==> code == 500 && words@
            == "Failed to construct internal response"@,
{
}

} // verus!
