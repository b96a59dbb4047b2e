//! The volunteer's end of the tunnel.
use crate::proto;
use crate::proto::{decode, decode_handshake, encode, to_big_endian, FRAME_LEN, HANDSHAKE_LEN,
    TAG_CLOSE, TAG_OPEN, TAG_PING, TAG_PONG};
use crate::text;
use crate::text::{decimal_text, trim};
use vstd::prelude::*;

verus! {

/// How many seconds to wait before the server is dialled again.
pub const RECONNECT_DELAY_SECS: u64 = 5;

/// A setting without the white space around it, where anything is left of it.
pub open spec fn setting(value: Option<Seq<char>>) -> Option<Seq<char>> {
    if value is Some && text::trimmed(value->0).len() > 0 {
        Some(text::trimmed(value->0))
    } else {
        None
    }
}

/// Reads a setting.
fn read_setting(value: &Option<String>) -> (read: Option<String>)
    ensures
        text::maybe(read) == setting(text::maybe(*value)),
{
    match value {
        Some(v) => {
            let bare = trim(v.as_str());
            if bare.as_str().is_empty() {
                None
            } else {
                Some(bare)
            }
        },
        None => None,
    }
}

/// Where the volunteer's service is: what the environment says, else what the
/// agent's file says, else port 8080 of this machine. It is asked for anew for each
/// stream, so that a service that has moved is found without a new session.
pub fn local_service_addr(env: Option<String>, file: Option<String>) -> (addr: String)
    ensures
        addr@ == (match (setting(text::maybe(env)), setting(text::maybe(file))) {
            (Some(a), _) => a,
            (None, Some(a)) => a,
            (None, None) => "127.0.0.1:8080"@,
        }),
{
    match read_setting(&env) {
        Some(addr) => addr,
        None => match read_setting(&file) {
            Some(addr) => addr,
            None => "127.0.0.1:8080".to_owned(),
        },
    }
}

/// What to do with a frame from the server.
#[derive(Clone, Copy, Debug, PartialEq, Eq)]
pub enum FrameAction {
    /// Send this frame.
    Reply([u8; FRAME_LEN]),
    /// Open a data connection for a stream.
    Open(u16),
    /// Nothing: a stream is done.
    Closed(u16),
    /// Nothing: the tag is not known.
    Ignore(u8),
}

/// Decides what to do with a frame from the server: a keepalive request is answered,
/// and a visitor that is announced gets a data connection.
pub fn on_frame(frame: &[u8; FRAME_LEN]) -> (action: FrameAction)
    ensures
        ({
            let (tag, stream_id) = proto::frame_of(frame@);
            match action {
                FrameAction::Reply(reply) => tag == TAG_PING && proto::frame_of(reply@) == (
                    TAG_PONG,
                    0int,
                ),
                FrameAction::Open(id) => tag == TAG_OPEN && id == stream_id,
                FrameAction::Closed(id) => tag == TAG_CLOSE && id == stream_id,
                FrameAction::Ignore(other) => other == tag && tag != TAG_PING && tag != TAG_OPEN
                    && tag != TAG_CLOSE,
            }
        }),
{
    let (tag, stream_id) = decode(frame);
    if tag == TAG_PING {
        FrameAction::Reply(encode(TAG_PONG, 0))
    } else if tag == TAG_OPEN {
        FrameAction::Open(stream_id)
    } else if tag == TAG_CLOSE {
        FrameAction::Closed(stream_id)
    } else {
        FrameAction::Ignore(tag)
    }
}

/// The first bytes of a data connection: the number of its stream.
pub fn stream_bytes(stream_id: u16) -> (bytes: [u8; 2])
    ensures
        proto::big_endian(bytes@[0], bytes@[1]) == stream_id,
{
    let (hi, lo) = to_big_endian(stream_id);
    [hi, lo]
}

// ── the loop ────────────────────────────────────────────────────────────────
/// Where the client's loop stands.
#[derive(Clone, Copy, Debug, PartialEq, Eq, Structural)]
pub enum ClientStage {
    /// Dialling the server.
    Connecting,
    /// Reading the opening message.
    Greeting,
    /// Writing down the public port for the agent.
    Publishing {
        /// The public port.
        public: u16,
        /// The data port.
        data: u16,
    },
    /// Serving streams.
    Serving {
        /// The data port.
        data: u16,
    },
    /// Striking out the public port.
    Retracting,
    /// Waiting before the server is dialled again.
    Waiting,
}

/// What to do next in the client's loop.
pub enum ClientAction {
    /// Dial the server.
    Connect,
    /// Read the opening message.
    ReadHandshake,
    /// Write this text to the port file.
    WritePort(String),
    /// Serve streams, dialling back to this port.
    Serve(u16),
    /// Remove the port file.
    RemovePort,
    /// Wait for some seconds.
    Wait(u64),
}

/// What happened in the client's loop.
#[derive(Clone, Copy, Debug, PartialEq, Eq)]
pub enum ClientEvent {
    /// The server was dialled, or could not be.
    Connected(bool),
    /// The opening message was read, or could not be.
    Handshake(Option<[u8; HANDSHAKE_LEN]>),
    /// The port file was written, or could not be.
    PortWritten(bool),
    /// The session is over.
    SessionOver,
    /// The port file was removed, or was not there.
    PortRemoved,
    /// The wait is over.
    Waited,
}

impl ClientStage {
    /// The loop after an event. An event that does not fit changes nothing.
    pub open spec fn after(self, event: ClientEvent) -> ClientStage {
        match (self, event) {
            (ClientStage::Connecting, ClientEvent::Connected(ok)) => if ok {
                ClientStage::Greeting
            } else {
                ClientStage::Waiting
            },
            (ClientStage::Greeting, ClientEvent::Handshake(Some(bytes))) =>
                ClientStage::Publishing {
                    public: proto::handshake_of(bytes@).0 as u16,
                    data: proto::handshake_of(bytes@).1 as u16,
                },
            (ClientStage::Greeting, ClientEvent::Handshake(None)) => ClientStage::Waiting,
            (ClientStage::Publishing { public, data }, ClientEvent::PortWritten(ok)) => if ok {
                ClientStage::Serving { data }
            } else {
                ClientStage::Waiting
            },
            (ClientStage::Serving { data }, ClientEvent::SessionOver) => ClientStage::Retracting,
            (ClientStage::Retracting, ClientEvent::PortRemoved) => ClientStage::Waiting,
            (ClientStage::Waiting, ClientEvent::Waited) => ClientStage::Connecting,
            (stage, _) => stage,
        }
    }

    /// What to do next.
    pub fn action(&self) -> (action: ClientAction)
        ensures
            match *self {
                ClientStage::Connecting => action is Connect,
                ClientStage::Greeting => action is ReadHandshake,
                ClientStage::Publishing { public, data } => action matches ClientAction::WritePort(
                    words,
                ) && words@ == text::decimal(public as nat),
                ClientStage::Serving { data } => action == ClientAction::Serve(data),
                ClientStage::Retracting => action is RemovePort,
                ClientStage::Waiting => action == ClientAction::Wait(RECONNECT_DELAY_SECS),
            },
    {
        match *self {
            ClientStage::Connecting => ClientAction::Connect,
            ClientStage::Greeting => ClientAction::ReadHandshake,
            ClientStage::Publishing { public, data: _ } => ClientAction::WritePort(
                decimal_text(public as u64),
            ),
            ClientStage::Serving { data } => ClientAction::Serve(data),
            ClientStage::Retracting => ClientAction::RemovePort,
            ClientStage::Waiting => ClientAction::Wait(RECONNECT_DELAY_SECS),
        }
    }

    /// Takes in an event.
    pub fn resume(self, event: ClientEvent) -> (next: ClientStage)
        ensures
            next == self.after(event),
    {
        match (self, event) {
            (ClientStage::Connecting, ClientEvent::Connected(ok)) => if ok {
                ClientStage::Greeting
            } else {
                ClientStage::Waiting
            },
            (ClientStage::Greeting, ClientEvent::Handshake(Some(bytes))) => {
                let (public, data) = decode_handshake(&bytes);
                ClientStage::Publishing { public, data }
            },
            (ClientStage::Greeting, ClientEvent::Handshake(None)) => ClientStage::Waiting,
            (ClientStage::Publishing { public: _, data }, ClientEvent::PortWritten(ok)) => if ok {
                ClientStage::Serving { data }
            } else {
                ClientStage::Waiting
            },
            (ClientStage::Serving { data: _ }, ClientEvent::SessionOver) =>
                ClientStage::Retracting,
            (ClientStage::Retracting, ClientEvent::PortRemoved) => ClientStage::Waiting,
            (ClientStage::Waiting, ClientEvent::Waited) => ClientStage::Connecting,
            (stage, _) => stage,
        }
    }
}

// ── laws ────────────────────────────────────────────────────────────────────
/// The client's loop after a run of events.
pub open spec fn after_all(start: ClientStage, events: Seq<ClientEvent>) -> ClientStage
    decreases events.len(),
{
    if events.len() == 0 {
        start
    } else {
        after_all(start, events.drop_last()).after(events.last())
    }
}

/// Whether the port file holds a port of a session, as of a run of events: it was
/// written, and has not been removed since.
pub open spec fn port_is_published(start: ClientStage, events: Seq<ClientEvent>) -> bool
    decreases events.len(),
{
    if events.len() == 0 {
        false
    } else {
        let before = events.drop_last();
        match (after_all(start, before), events.last()) {
            (ClientStage::Publishing { public, data }, ClientEvent::PortWritten(true)) => true,
            (ClientStage::Retracting, ClientEvent::PortRemoved) => false,
            _ => port_is_published(start, before),
        }
    }
}

/// The port file holds a port just while a session is served, or is about to be
/// cleared: the server is never dialled again with a stale port in it.
pub proof fn no_stale_port(events: Seq<ClientEvent>)
    ensures
        ({
            let now = after_all(ClientStage::Connecting, events);
            port_is_published(ClientStage::Connecting, events) <==> (now is Serving
                || now is Retracting)
        }),
    decreases events.len(),
{
    if events.len() > 0 {
        no_stale_port(events.drop_last());
    }
}

/// What the server tells a client in its opening message is what the client goes by.
pub proof fn client_learns_the_ports(bytes: [u8; HANDSHAKE_LEN], public: u16, data: u16)
    requires
        proto::handshake_of(bytes@) == (public as int, data as int),
    ensures
        ClientStage::Greeting.after(ClientEvent::Handshake(Some(bytes))) == (
        ClientStage::Publishing { public, data }),
{
}

/// The two ends mean the same visitor: what the server announces a visitor by is what
/// the client opens, and what it then sends first on its data connection is what the
/// server finds the visitor by.
pub proof fn visitors_are_found_again(
    stream_id: u16,
    frame: Seq<u8>,
    opened: u16,
    first_bytes: Seq<u8>,
)
    requires
        proto::frame_of(frame) == (TAG_OPEN, stream_id as int),
        opened == proto::frame_of(frame).1,
        proto::big_endian(first_bytes[0], first_bytes[1]) == opened,
    ensures
        proto::big_endian(first_bytes[0], first_bytes[1]) as u16 == stream_id,
{
}

} // verus!
