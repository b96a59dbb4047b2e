//! The maps that the broker shares between its tasks.
use dashmap::DashMap;
use vstd::prelude::*;

verus! {

/// A concurrent map.
#[verifier::external_type_specification]
#[verifier::external_body]
#[verifier::reject_recursive_types(K)]
#[verifier::reject_recursive_types(V)]
#[verifier::reject_recursive_types(S)]
pub struct ExDashMap<K, V, S>(dashmap::DashMap<K, V, S>);

/// What the broker knows of an agent. Times are in nanoseconds since it started, and
/// fractions are held as the bits of 32-bit floating-point numbers.
#[derive(Clone, Copy, Debug, PartialEq, Eq, Structural)]
pub struct Node {
    /// The number of the channel to the agent.
    pub channel: u64,
    /// When it was last heard of.
    pub last_heartbeat: u64,
    /// The bits of its processor load in percent.
    pub cpu_usage: u32,
    /// The memory that it uses in bytes.
    pub memory_used: u64,
    /// How many requests it is serving.
    pub active_requests: u32,
    /// The bits of its load average.
    pub load_average: u32,
}

/// The agents that a map holds, by their names.
pub uninterp spec fn nodes_of(map: DashMap<String, Node>) -> Map<Seq<char>, Node>;

/// The requests that a map holds, by their identifiers. Each has the number of the
/// task that waits for its answer.
pub uninterp spec fn requests_of(map: DashMap<String, u64>) -> Map<Seq<char>, u64>;

/// `DashMap::new` makes an empty map.
#[verifier::external_body]
pub(crate) fn new_nodes() -> (map: DashMap<String, Node>)
    ensures
        forall|name: Seq<char>| !nodes_of(map).contains_key(name),
{
    DashMap::new()
}

/// `DashMap::insert` puts an agent under its name, in the place of one that was there.
#[verifier::external_body]
pub(crate) fn put_node(map: &mut DashMap<String, Node>, name: &str, node: Node)
    ensures
        nodes_of(*final(map)) == nodes_of(*old(map)).insert(name@, node),
{
    map.insert(name.to_string(), node);
}

/// `DashMap::get` finds an agent by its name.
#[verifier::external_body]
pub(crate) fn get_node(map: &DashMap<String, Node>, name: &str) -> (node: Option<Node>)
    ensures
        match node {
            Some(n) => nodes_of(*map).contains_key(name@) && n == nodes_of(*map)[name@],
            None => !nodes_of(*map).contains_key(name@),
        },
{
    map.get(name).map(|entry| *entry.value())
}

/// `DashMap::remove` takes out the agent with a name.
#[verifier::external_body]
pub(crate) fn remove_node(map: &mut DashMap<String, Node>, name: &str)
    ensures
        nodes_of(*final(map)) == nodes_of(*old(map)).remove(name@),
{
    map.remove(name);
}

/// An agent with its name.
pub struct NamedNode {
    /// The name.
    pub name: String,
    /// The agent.
    pub node: Node,
}

/// Whether a list holds the agents of a map, each once.
pub open spec fn lists_nodes(list: Seq<NamedNode>, map: Map<Seq<char>, Node>) -> bool {
    &&& forall|i: int, j: int| 0 <= i < j < list.len() ==> list[i].name@ != list[j].name@
    &&& forall|i: int|
        0 <= i < list.len() ==> map.contains_key((#[trigger] list[i]).name@) && map[list[i].name@]
            == list[i].node
    &&& forall|name: Seq<char>| #[trigger] map.contains_key(name) ==> is_listed(list, name)
}

/// Whether a list has an agent with a name.
pub open spec fn is_listed(list: Seq<NamedNode>, name: Seq<char>) -> bool {
    exists|i: int| 0 <= i < list.len() && (#[trigger] list[i]).name@ == name
}

/// `DashMap::iter` walks through the agents, each once, in no particular order.
#[verifier::external_body]
pub(crate) fn all_nodes(map: &DashMap<String, Node>) -> (list: Vec<NamedNode>)
    ensures
        lists_nodes(list@, nodes_of(*map)),
{
    map.iter().map(|entry| NamedNode { name: entry.key().clone(), node: *entry.value() }).collect()
}

/// How many nanoseconds an agent may be silent before it is forgotten.
pub const FORGET_AFTER_NS: u64 = 60_000_000_000;

/// How long an agent has been silent.
pub open spec fn silence(node: Node, now: u64) -> int {
    if now >= node.last_heartbeat {
        now - node.last_heartbeat
    } else {
        0
    }
}

/// How long an agent has been silent.
pub fn silent_for(node: &Node, now: u64) -> (nanos: u64)
    ensures
        nanos == silence(*node, now),
{
    if now >= node.last_heartbeat {
        now - node.last_heartbeat
    } else {
        0
    }
}

/// Whether an agent was heard of lately enough to be kept.
pub fn is_remembered(node: &Node, now: u64) -> (kept: bool)
    ensures
        kept == (silence(*node, now) <= FORGET_AFTER_NS),
{
    silent_for(node, now) <= FORGET_AFTER_NS
}

/// The agents that were heard of lately enough to be kept.
pub open spec fn remembered(map: Map<Seq<char>, Node>, now: u64) -> Map<Seq<char>, Node> {
    map.restrict(
        Set::new(
            |name: Seq<char>|
                map.contains_key(name) && silence(map[name], now) <= FORGET_AFTER_NS,
        ),
    )
}

/// `DashMap::retain` keeps the agents for which a function says so, here
/// [`is_remembered`], and takes out the others.
#[verifier::external_body]
pub(crate) fn retain_nodes(map: &mut DashMap<String, Node>, now: u64)
    ensures
        nodes_of(*final(map)) == remembered(nodes_of(*old(map)), now),
{
    map.retain(|_, node| is_remembered(node, now));
}

/// `DashMap::new` makes an empty map.
#[verifier::external_body]
pub(crate) fn new_requests() -> (map: DashMap<String, u64>)
    ensures
        forall|id: Seq<char>| !requests_of(map).contains_key(id),
{
    DashMap::new()
}

/// `DashMap::insert` puts a request under its identifier, in the place of one that
/// was there.
#[verifier::external_body]
pub(crate) fn put_request(map: &mut DashMap<String, u64>, id: &str, ticket: u64)
    ensures
        requests_of(*final(map)) == requests_of(*old(map)).insert(id@, ticket),
{
    map.insert(id.to_string(), ticket);
}

/// `DashMap::remove` takes out the request with an identifier.
#[verifier::external_body]
pub(crate) fn take_request(map: &mut DashMap<String, u64>, id: &str) -> (ticket: Option<u64>)
    ensures
        requests_of(*final(map)) == requests_of(*old(map)).remove(id@),
        match ticket {
            Some(t) => requests_of(*old(map)).contains_key(id@) && t == requests_of(
                *old(map),
            )[id@],
            None => !requests_of(*old(map)).contains_key(id@),
        },
{
    map.remove(id).map(|(_, ticket)| ticket)
}

} // verus!
