//! What the front door is told: edits of its configuration file and commands of
//! its runtime API.
//!
//! Services get a backend of their own through the configuration file, which takes
//! a reload. Volunteers come and go through the runtime API, which takes none.
pub mod assign;
pub mod config;
pub mod edit;
pub mod edit_laws;
pub mod laws;
pub mod run;
pub mod runtime;
pub mod subdomain;

use crate::haproxy::config::{ConfigError, ConfigErrorView};
use crate::haproxy::edit::{add_service, remove_service, ConfigEdit, ConfigEditView, StageView};
use crate::haproxy::run::{plainly, Attempt, AttemptView, RuntimeRun};
use crate::haproxy::runtime::{RuntimeError, RuntimeErrorView};
use crate::ids;
use crate::ids::simple_text;
use vstd::prelude::*;

verus! {

/// What can go wrong while the front door is told something.
#[derive(Debug)]
pub enum Error {
    /// A runtime command failed.
    Runtime(RuntimeError),
    /// An edit of the configuration failed.
    Config(ConfigError),
    /// A subdomain could not be managed.
    Subdomain(String),
}

/// The value of an [`Error`].
pub enum ErrorView {
    /// See [`Error::Runtime`].
    Runtime(RuntimeErrorView),
    /// See [`Error::Config`].
    Config(ConfigErrorView),
    /// See [`Error::Subdomain`].
    Subdomain(Seq<char>),
}

impl View for Error {
    type V = ErrorView;

    open spec fn view(&self) -> ErrorView {
        match *self {
            Error::Runtime(e) => ErrorView::Runtime(e@),
            Error::Config(e) => ErrorView::Config(e@),
            Error::Subdomain(e) => ErrorView::Subdomain(e@),
        }
    }
}

impl ErrorView {
    /// The error in words.
    pub open spec fn text(self) -> Seq<char> {
        match self {
            ErrorView::Runtime(e) => "runtime API error: "@ + e.text(),
            ErrorView::Config(e) => "config error: "@ + e.text(),
            ErrorView::Subdomain(e) => "subdomain error: "@ + e,
        }
    }
}

impl Error {
    /// The error in words.
    pub fn message(&self) -> (words: String)
        ensures
            words@ == self@.text(),
    {
        match self {
            Error::Runtime(e) => "runtime API error: ".to_owned().concat(e.message().as_str()),
            Error::Config(e) => "config error: ".to_owned().concat(e.message().as_str()),
            Error::Subdomain(e) => "subdomain error: ".to_owned().concat(e.as_str()),
        }
    }
}

impl From<RuntimeError> for Error {
    fn from(e: RuntimeError) -> (error: Error) {
        Error::Runtime(e)
    }
}

impl vstd::std_specs::convert::FromSpecImpl<RuntimeError> for Error {
    open spec fn obeys_from_spec() -> bool {
        true
    }

    open spec fn from_spec(e: RuntimeError) -> Error {
        Error::Runtime(e)
    }
}

impl From<ConfigError> for Error {
    fn from(e: ConfigError) -> (error: Error) {
        Error::Config(e)
    }
}

impl vstd::std_specs::convert::FromSpecImpl<ConfigError> for Error {
    open spec fn obeys_from_spec() -> bool {
        true
    }

    open spec fn from_spec(e: ConfigError) -> Error {
        Error::Config(e)
    }
}

// ── volunteers ──────────────────────────────────────────────────────────────
/// The name of a volunteer's server: its identifier without hyphens, which server
/// names may not have.
pub fn server_name_for(id: u128) -> (name: String)
    ensures
        name@ == ids::simple_of(id),
{
    simple_text(id)
}

/// The things to do to add a server.
pub open spec fn add_steps(
    backend: Seq<char>,
    server: Seq<char>,
    addr: Seq<char>,
    weight: u32,
) -> Seq<AttemptView> {
    seq![
        run::plain(runtime::add_command(backend, server, addr)),
        run::plain(runtime::weight_command(backend, server, weight)),
        run::plain(runtime::state_command(backend, server, "ready"@)),
    ]
}

/// Starts to register a volunteer's server in a backend.
pub fn add_volunteer(service_name: &str, volunteer_id: u128, addr: &str, weight: u32) -> (run:
    RuntimeRun)
    ensures
        run@ == run::starting(
            add_steps(service_name@, ids::simple_of(volunteer_id), addr@, weight),
        ),
{
    let server = server_name_for(volunteer_id);
    let mut steps: Vec<Attempt> = Vec::new();
    steps.push(plainly(runtime::add_server(service_name, server.as_str(), addr)));
    steps.push(plainly(runtime::set_weight(service_name, server.as_str(), weight)));
    steps.push(plainly(runtime::set_state(service_name, server.as_str(), "ready")));
    assert(run::attempts(steps@) =~= add_steps(service_name@, server@, addr@, weight));
    RuntimeRun::start(steps)
}

/// The things to do to remove a server: it goes into maintenance first.
pub open spec fn remove_steps(backend: Seq<char>, server: Seq<char>) -> Seq<AttemptView> {
    seq![
        run::plain(runtime::state_command(backend, server, "maint"@)),
        run::plain(runtime::remove_command(backend, server)),
    ]
}

/// Starts to remove a volunteer's server from a backend.
pub fn remove_volunteer(service_name: &str, volunteer_id: u128) -> (run: RuntimeRun)
    ensures
        run@ == run::starting(remove_steps(service_name@, ids::simple_of(volunteer_id))),
{
    let server = server_name_for(volunteer_id);
    let mut steps: Vec<Attempt> = Vec::new();
    steps.push(plainly(runtime::set_state(service_name, server.as_str(), "maint")));
    steps.push(plainly(runtime::remove_server(service_name, server.as_str())));
    assert(run::attempts(steps@) =~= remove_steps(service_name@, server@));
    RuntimeRun::start(steps)
}

/// The things to do to add a server or, where it is there already, to move it.
pub open spec fn upsert_steps(
    backend: Seq<char>,
    server: Seq<char>,
    addr: Seq<char>,
    weight: u32,
) -> Seq<AttemptView> {
    seq![
        AttemptView {
            first: runtime::addr_attempt(backend, server, addr),
            fallback: Some(runtime::add_command(backend, server, addr)),
        },
        run::plain(runtime::weight_command(backend, server, weight)),
        run::plain(runtime::state_command(backend, server, "ready"@)),
    ]
}

/// Starts to add or update a dynamic server, which is left ready.
///
/// Moving fails where the server is not there, and adding is refused where it is:
/// so the run moves it first and adds it only where HAProxy says that it is not
/// there.
pub fn upsert_server(backend: &str, server_name: &str, addr: &str, weight: u32) -> (run: RuntimeRun)
    ensures
        run@ == run::starting(upsert_steps(backend@, server_name@, addr@, weight)),
{
    let mut steps: Vec<Attempt> = Vec::new();
    steps.push(
        Attempt {
            first: runtime::set_addr(backend, server_name, addr),
            fallback: Some(runtime::add_server(backend, server_name, addr)),
        },
    );
    steps.push(plainly(runtime::set_weight(backend, server_name, weight)));
    steps.push(plainly(runtime::set_state(backend, server_name, "ready")));
    assert(run::attempts(steps@) =~= upsert_steps(backend@, server_name@, addr@, weight));
    RuntimeRun::start(steps)
}

/// Starts to add or update a volunteer's server. A volunteer keeps its identifier
/// when it enrolls again, but its address changes with every tunnel session.
pub fn upsert_volunteer(service_name: &str, volunteer_id: u128, addr: &str, weight: u32) -> (run:
    RuntimeRun)
    ensures
        run@ == run::starting(
            upsert_steps(service_name@, ids::simple_of(volunteer_id), addr@, weight),
        ),
{
    let server = server_name_for(volunteer_id);
    upsert_server(service_name, server.as_str(), addr, weight)
}

/// Starts to set the weight of a volunteer's server.
pub fn set_weight(service_name: &str, volunteer_id: u128, weight: u32) -> (run: RuntimeRun)
    ensures
        run@ == run::starting(
            seq![
                run::plain(
                    runtime::weight_command(service_name@, ids::simple_of(volunteer_id), weight),
                ),
            ],
        ),
{
    let server = server_name_for(volunteer_id);
    let mut steps: Vec<Attempt> = Vec::new();
    steps.push(plainly(runtime::set_weight(service_name, server.as_str(), weight)));
    assert(run::attempts(steps@) =~= seq![
        run::plain(runtime::weight_command(service_name@, server@, weight)),
    ]);
    RuntimeRun::start(steps)
}

/// The things to do to move a server: it goes into maintenance, moves, and comes
/// back, so that health checks start anew.
pub open spec fn move_steps(backend: Seq<char>, server: Seq<char>, addr: Seq<char>) -> Seq<
    AttemptView,
> {
    seq![
        run::plain(runtime::state_command(backend, server, "maint"@)),
        AttemptView { first: runtime::addr_attempt(backend, server, addr), fallback: None },
        run::plain(runtime::state_command(backend, server, "ready"@)),
    ]
}

/// Adds what is to be done to move a server.
fn push_move(steps: &mut Vec<Attempt>, backend: &str, server_name: &str, addr: &str)
    ensures
        run::attempts(final(steps)@) == run::attempts(old(steps)@) + move_steps(
            backend@,
            server_name@,
            addr@,
        ),
{
    let ghost before = run::attempts(steps@);
    steps.push(plainly(runtime::set_state(backend, server_name, "maint")));
    steps.push(
        Attempt { first: runtime::set_addr(backend, server_name, addr), fallback: None },
    );
    steps.push(plainly(runtime::set_state(backend, server_name, "ready")));
    assert(run::attempts(steps@) =~= before + move_steps(backend@, server_name@, addr@));
}

/// The backend of a service.
pub open spec fn service_backend(service: Seq<char>) -> Seq<char> {
    "svc_"@ + service
}

/// Builds the name of a service's backend.
pub fn service_backend_name(service_name: &str) -> (name: String)
    ensures
        name@ == service_backend(service_name@),
{
    "svc_".to_owned().concat(service_name)
}

/// Starts to move a volunteer's server among the volunteers and, where it serves a
/// service, the server of that service. `assigned_service` holds the service's
/// name and its new address.
pub fn update_volunteer_addr(
    volunteer_id: u128,
    new_volunteers_addr: &str,
    assigned_service: Option<(String, String)>,
) -> (run: RuntimeRun)
    ensures
        run@ == run::starting(
            move_steps("volunteers"@, ids::simple_of(volunteer_id), new_volunteers_addr@) + (
            match assigned_service {
                Some((service, addr)) => move_steps(
                    service_backend(service@),
                    "primary"@,
                    addr@,
                ),
                None => Seq::empty(),
            }),
        ),
{
    let server = server_name_for(volunteer_id);
    let mut steps: Vec<Attempt> = Vec::new();
    assert(run::attempts(steps@) =~= Seq::empty());
    push_move(&mut steps, "volunteers", server.as_str(), new_volunteers_addr);
    if let Some((service, addr)) = &assigned_service {
        let backend = service_backend_name(service.as_str());
        push_move(&mut steps, backend.as_str(), "primary", addr.as_str());
    }
    assert(run::attempts(steps@) =~= move_steps(
        "volunteers"@,
        ids::simple_of(volunteer_id),
        new_volunteers_addr@,
    ) + (match assigned_service {
        Some((service, addr)) => move_steps(service_backend(service@), "primary"@, addr@),
        None => Seq::empty(),
    }));
    RuntimeRun::start(steps)
}

// ── services ────────────────────────────────────────────────────────────────
/// The weight of the one server that a service has.
pub const PRIMARY_WEIGHT: u32 = 100;

/// Starts to point the one server of a service at an address. Its name is always
/// the same, so that repeated calls replace it and do not add up.
pub fn upsert_svc_server(service_name: &str, tunnel_addr: &str) -> (run: RuntimeRun)
    ensures
        run@ == run::starting(
            upsert_steps(
                service_backend(service_name@),
                "primary"@,
                tunnel_addr@,
                PRIMARY_WEIGHT,
            ),
        ),
{
    let backend = service_backend_name(service_name);
    upsert_server(backend.as_str(), "primary", tunnel_addr, PRIMARY_WEIGHT)
}

/// Starts to put back the server of a service after a restart. The configuration
/// must have the service already, so that no reload follows.
pub fn restore_service_server(service_name: &str, _volunteer_id: u128, tunnel_addr: &str) -> (run:
    RuntimeRun)
    ensures
        run@ == run::starting(
            upsert_steps(
                service_backend(service_name@),
                "primary"@,
                tunnel_addr@,
                PRIMARY_WEIGHT,
            ),
        ),
{
    upsert_svc_server(service_name, tunnel_addr)
}

/// An edit that is about to add a service.
pub open spec fn adding(service: Seq<char>, domain: Seq<char>) -> ConfigEditView {
    ConfigEditView { service, domain: Some(domain), stage: StageView::Reading }
}

/// Starts to see to it that the configuration has a backend and a routing rule for
/// a service.
pub fn ensure_service_config(service_name: &str, domain: &str) -> (edit: ConfigEdit)
    ensures
        edit@ == adding(service_backend(service_name@), domain@),
{
    let backend = service_backend_name(service_name);
    add_service(backend.as_str(), domain)
}

/// Starts to add a backend and a routing rule to the configuration.
pub fn register_service(service_name: &str, domain: &str) -> (edit: ConfigEdit)
    ensures
        edit@ == adding(service_name@, domain@),
{
    add_service(service_name, domain)
}

/// Starts to see to it that a backend and its routing rule exist.
pub fn ensure_service(service_name: &str, domain: &str) -> (edit: ConfigEdit)
    ensures
        edit@ == adding(service_name@, domain@),
{
    add_service(service_name, domain)
}

/// Starts to remove a backend and its routing rule.
pub fn unregister_service(service_name: &str) -> (edit: ConfigEdit)
    ensures
        edit@ == (ConfigEditView {
            service: service_name@,
            domain: None,
            stage: StageView::Reading,
        }),
{
    remove_service(service_name)
}

/// Lists the service backends of a configuration that was read.
pub fn list_services(content: Result<String, ConfigError>) -> (names: Result<Vec<String>, Error>)
    ensures
        match (content, names) {
            (Ok(c), Ok(n)) => crate::text::texts(n@) == config::backends_of(c@),
            (Err(e), Err(n)) => n == Error::Config(e),
            _ => false,
        },
{
    match content {
        Ok(c) => Ok(config::list_services(c.as_str())),
        Err(e) => Err(Error::from(e)),
    }
}

// ── laws ────────────────────────────────────────────────────────────────────
/// A server is moved where it is there and added where HAProxy says that it is
/// not; any other refusal ends the run with that refusal.
pub proof fn upsert_moves_or_adds(
    backend: Seq<char>,
    server: Seq<char>,
    addr: Seq<char>,
    weight: u32,
    answer: Seq<char>,
    e: RuntimeErrorView,
)
    requires
        crate::text::split_at_last(addr, ':') is Some,
    ensures
        ({
            let start = run::starting(upsert_steps(backend, server, addr, weight));
            let (ip, port) = crate::text::split_at_last(addr, ':')->0;
            let weighing = Some(runtime::weight_command(backend, server, weight));
            let missing = start.after(Err(e));
            &&& start.command() == Some(runtime::addr_command(backend, server, ip, port))
            &&& start.after(Ok(answer)).command() == weighing
            &&& e.says_no_such_server() ==> missing.command() == Some(
                runtime::add_command(backend, server, addr),
            ) && missing.after(Ok(answer)).command() == weighing
            &&& !e.says_no_such_server() ==> missing.outcome() == Some(
                Err::<(), RuntimeErrorView>(e),
            )
        }),
{
}

/// An upsert that is answered well leaves the server ready, and is then over.
pub proof fn upsert_ends_ready(
    backend: Seq<char>,
    server: Seq<char>,
    addr: Seq<char>,
    weight: u32,
    first: Seq<char>,
    second: Seq<char>,
    third: Seq<char>,
)
    requires
        crate::text::split_at_last(addr, ':') is Some,
    ensures
        ({
            let weighed = run::starting(upsert_steps(backend, server, addr, weight)).after(
                Ok(first),
            ).after(Ok(second));
            &&& weighed.command() == Some(runtime::state_command(backend, server, "ready"@))
            &&& weighed.after(Ok(third)).outcome() == Some(Ok::<(), RuntimeErrorView>(()))
        }),
{
}

/// A run that failed sends no more commands, whatever it is told.
pub proof fn failed_run_is_over(
    run: run::RunView,
    answer: Result<Seq<char>, RuntimeErrorView>,
)
    requires
        run.failed is Some,
    ensures
        run.command() is None,
        run.after(answer) == run,
{
}

} // verus!
