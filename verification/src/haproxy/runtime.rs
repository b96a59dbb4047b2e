//! Commands of the HAProxy runtime API, and what its answers mean.
use crate::text;
use crate::text::{contains, decimal_text, rsplit_once, starts_with, trim};
use vstd::prelude::*;

verus! {

/// What can go wrong while HAProxy is told to change something.
#[derive(Debug)]
pub enum RuntimeError {
    /// The admin socket could not be used.
    Io(String),
    /// HAProxy refused a command.
    Response(String),
    /// The platform has no Unix sockets.
    Unsupported,
}

/// The value of a [`RuntimeError`].
pub enum RuntimeErrorView {
    /// See [`RuntimeError::Io`].
    Io(Seq<char>),
    /// See [`RuntimeError::Response`].
    Response(Seq<char>),
    /// See [`RuntimeError::Unsupported`].
    Unsupported,
}

impl View for RuntimeError {
    type V = RuntimeErrorView;

    open spec fn view(&self) -> RuntimeErrorView {
        match *self {
            RuntimeError::Io(e) => RuntimeErrorView::Io(e@),
            RuntimeError::Response(e) => RuntimeErrorView::Response(e@),
            RuntimeError::Unsupported => RuntimeErrorView::Unsupported,
        }
    }
}

impl RuntimeErrorView {
    /// The error in words.
    pub open spec fn text(self) -> Seq<char> {
        match self {
            RuntimeErrorView::Io(e) => "io error: "@ + e,
            RuntimeErrorView::Response(e) => "haproxy returned an error response: "@ + e,
            RuntimeErrorView::Unsupported => "unix sockets are not supported on this platform"@,
        }
    }

    /// Whether the error says that a server is not there.
    pub open spec fn says_no_such_server(self) -> bool {
        text::has_part(self.text(), "No such server"@)
    }
}

impl RuntimeError {
    /// The error in words.
    pub fn message(&self) -> (words: String)
        ensures
            words@ == self@.text(),
    {
        match self {
            RuntimeError::Io(e) => "io error: ".to_owned().concat(e.as_str()),
            RuntimeError::Response(e) => "haproxy returned an error response: ".to_owned().concat(
                e.as_str(),
            ),
            RuntimeError::Unsupported =>
                "unix sockets are not supported on this platform".to_owned(),
        }
    }

    /// Whether the error says that a server is not there.
    pub fn says_no_such_server(&self) -> (r: bool)
        ensures
            r == self@.says_no_such_server(),
    {
        contains(self.message().as_str(), "No such server")
    }
}

impl Clone for RuntimeError {
    fn clone(&self) -> (copy: RuntimeError)
        ensures
            copy@ == self@,
    {
        match self {
            RuntimeError::Io(e) => RuntimeError::Io(e.clone()),
            RuntimeError::Response(e) => RuntimeError::Response(e.clone()),
            RuntimeError::Unsupported => RuntimeError::Unsupported,
        }
    }
}

// ── commands ────────────────────────────────────────────────────────────────
/// What is written to the admin socket for a command.
pub fn command_line(command: &str) -> (line: String)
    ensures
        line@ == command@ + "\n"@,
{
    command.to_owned().concat("\n")
}

/// Whether an answer reports an error.
pub open spec fn reports_error(answer: Seq<char>) -> bool {
    ||| "Can't"@.is_prefix_of(answer)
    ||| "No such"@.is_prefix_of(answer)
    ||| "Unknown"@.is_prefix_of(answer)
    ||| "Invalid"@.is_prefix_of(answer)
    ||| "Alert"@.is_prefix_of(answer)
    ||| "error"@.is_prefix_of(answer)
}

/// What HAProxy's answer to a command means: the answer without the white space
/// around it, which is an error where it starts like one.
pub fn classify_response(answer: &str) -> (r: Result<String, RuntimeError>)
    ensures
        match r {
            Ok(bare) => bare@ == text::trimmed(answer@) && !reports_error(bare@),
            Err(e) => e@ == RuntimeErrorView::Response(text::trimmed(answer@)) && reports_error(
                text::trimmed(answer@),
            ),
        },
{
    let bare = trim(answer);
    if starts_with(bare.as_str(), "Can't") || starts_with(bare.as_str(), "No such") || starts_with(
        bare.as_str(),
        "Unknown",
    ) || starts_with(bare.as_str(), "Invalid") || starts_with(bare.as_str(), "Alert")
        || starts_with(bare.as_str(), "error") {
        Err(RuntimeError::Response(bare))
    } else {
        Ok(bare)
    }
}

/// How a server of a backend is written in commands.
pub open spec fn server_path(backend: Seq<char>, server: Seq<char>) -> Seq<char> {
    backend + "/"@ + server
}

/// Builds the path of a server.
fn path_text(backend: &str, server_name: &str) -> (path: String)
    ensures
        path@ == server_path(backend@, server_name@),
{
    let mut path = backend.to_owned();
    path.append("/");
    path.append(server_name);
    path
}

/// The command that adds a server.
pub open spec fn add_command(backend: Seq<char>, server: Seq<char>, addr: Seq<char>) -> Seq<char> {
    "add server "@ + server_path(backend, server) + " "@ + addr
}

/// Builds the command that adds a dynamic server to a backend.
pub fn add_server(backend: &str, server_name: &str, addr: &str) -> (command: String)
    ensures
        command@ == add_command(backend@, server_name@, addr@),
{
    let mut command = "add server ".to_owned();
    command.append(path_text(backend, server_name).as_str());
    command.append(" ");
    command.append(addr);
    command
}

/// The command that removes a server.
pub open spec fn remove_command(backend: Seq<char>, server: Seq<char>) -> Seq<char> {
    "del server "@ + server_path(backend, server)
}

/// Builds the command that removes a dynamic server, which must be in maintenance.
pub fn remove_server(backend: &str, server_name: &str) -> (command: String)
    ensures
        command@ == remove_command(backend@, server_name@),
{
    "del server ".to_owned().concat(path_text(backend, server_name).as_str())
}

/// The command that sets the weight of a server.
pub open spec fn weight_command(backend: Seq<char>, server: Seq<char>, weight: u32) -> Seq<char> {
    "set weight "@ + server_path(backend, server) + " "@ + text::decimal(weight as nat)
}

/// Builds the command that sets the weight of a server.
pub fn set_weight(backend: &str, server_name: &str, weight: u32) -> (command: String)
    ensures
        command@ == weight_command(backend@, server_name@, weight),
{
    let mut command = "set weight ".to_owned();
    command.append(path_text(backend, server_name).as_str());
    command.append(" ");
    command.append(decimal_text(weight as u64).as_str());
    command
}

/// The command that sets the state of a server.
pub open spec fn state_command(backend: Seq<char>, server: Seq<char>, state: Seq<char>) -> Seq<
    char,
> {
    "set server "@ + server_path(backend, server) + " state "@ + state
}

/// Builds the command that sets the operational state of a server, `ready` or
/// `maint`.
pub fn set_state(backend: &str, server_name: &str, state: &str) -> (command: String)
    ensures
        command@ == state_command(backend@, server_name@, state@),
{
    let mut command = "set server ".to_owned();
    command.append(path_text(backend, server_name).as_str());
    command.append(" state ");
    command.append(state);
    command
}

/// The command that moves a server to another address.
pub open spec fn addr_command(
    backend: Seq<char>,
    server: Seq<char>,
    ip: Seq<char>,
    port: Seq<char>,
) -> Seq<char> {
    "set server "@ + server_path(backend, server) + " addr "@ + ip + " port "@ + port
}

/// What is to be sent to move a server to an address: the address is split at its
/// last colon, and one without a colon is an error.
pub open spec fn addr_attempt(backend: Seq<char>, server: Seq<char>, addr: Seq<char>) -> Result<
    Seq<char>,
    RuntimeErrorView,
> {
    match text::split_at_last(addr, ':') {
        Some((ip, port)) => Ok(addr_command(backend, server, ip, port)),
        None => Err(RuntimeErrorView::Response("invalid addr (expected ip:port): "@ + addr)),
    }
}

/// Builds the command that moves a server to another address, given as an IP
/// address, a colon and a port.
pub fn set_addr(backend: &str, server_name: &str, addr: &str) -> (command: Result<
    String,
    RuntimeError,
>)
    ensures
        attempt_view(command) == addr_attempt(backend@, server_name@, addr@),
{
    match rsplit_once(addr, ':') {
        Some((ip, port)) => {
            let mut command = "set server ".to_owned();
            command.append(path_text(backend, server_name).as_str());
            command.append(" addr ");
            command.append(ip.as_str());
            command.append(" port ");
            command.append(port.as_str());
            Ok(command)
        },
        None => Err(
            RuntimeError::Response("invalid addr (expected ip:port): ".to_owned().concat(addr)),
        ),
    }
}

/// The value of what is to be sent.
pub open spec fn attempt_view(command: Result<String, RuntimeError>) -> Result<
    Seq<char>,
    RuntimeErrorView,
> {
    match command {
        Ok(c) => Ok(c@),
        Err(e) => Err(e@),
    }
}

} // verus!
