//! The proxy: its commands, its configuration and the names of services.
use crate::haproxy;
use crate::haproxy::assign;
use crate::haproxy::assign::{
    AssignAction, AssignActionView, AssignEvent, AssignEventView, AssignStageView, Assignment, AssignmentView,
};
use crate::haproxy::config;
use crate::haproxy::config::{ConfigError, ConfigErrorView};
use crate::haproxy::edit;
use crate::haproxy::edit::{
    Action, ActionView, ConfigEdit, ConfigEditView, Event, EventView, StageView,
};
use crate::haproxy::run;
use crate::haproxy::run::{Attempt, AttemptView, RunView, RuntimeRun};
use crate::haproxy::runtime;
use crate::haproxy::runtime::{RuntimeError, RuntimeErrorView};
use crate::haproxy::{Error, ErrorView};
use crate::ids;
use crate::promises::texts;
use crate::text;
use vstd::prelude::*;

verus! {

// ── commands ────────────────────────────────────────────────────────────────
/// The commands of the runtime API, as they are sent.
pub proof fn commands_are_written_out(
    backend: Seq<char>,
    server: Seq<char>,
    addr: Seq<char>,
    ip: Seq<char>,
    port: Seq<char>,
    weight: u32,
    state: Seq<char>,
)
    ensures
        runtime::add_command(backend, server, addr) == "add server "@ + backend + "/"@ + server
            + " "@ + addr,
        runtime::remove_command(backend, server) == "del server "@ + backend + "/"@ + server,
        runtime::weight_command(backend, server, weight) == "set weight "@ + backend + "/"@ + server
            + " "@ + text::decimal(weight as nat),
        runtime::state_command(backend, server, state) == "set server "@ + backend + "/"@ + server
            + " state "@ + state,
        runtime::addr_command(backend, server, ip, port) == "set server "@ + backend + "/"@ + server
            + " addr "@ + ip + " port "@ + port,
{
    assert("add server "@ + backend + "/"@ + server + " "@ + addr =~= runtime::add_command(
        backend,
        server,
        addr,
    ));
    assert("del server "@ + backend + "/"@ + server =~= runtime::remove_command(backend, server));
    assert("set weight "@ + backend + "/"@ + server + " "@ + text::decimal(weight as nat)
        =~= runtime::weight_command(backend, server, weight));
    assert("set server "@ + backend + "/"@ + server + " state "@ + state =~= runtime::state_command(
        backend,
        server,
        state,
    ));
    assert("set server "@ + backend + "/"@ + server + " addr "@ + ip + " port "@ + port
        =~= runtime::addr_command(backend, server, ip, port));
}

/// A server is moved to an address by its part before the last colon and its part behind
/// it. An address without a colon is refused, in words that name it.
pub proof fn addresses_are_split(backend: Seq<char>, server: Seq<char>, ip: Seq<char>, port: Seq<char>)
    requires
        !port.contains(':'),
    ensures
        runtime::addr_attempt(backend, server, ip + seq![':'] + port) == Ok::<
            Seq<char>,
            RuntimeErrorView,
        >("set server "@ + backend + "/"@ + server + " addr "@ + ip + " port "@ + port),
        runtime::addr_attempt(backend, server, port) == Err::<Seq<char>, RuntimeErrorView>(
            RuntimeErrorView::Response("invalid addr (expected ip:port): "@ + port),
        ),
{
    texts::split_finds_the_place(ip, ':', port);
    texts::split_at_the_last_place(port, ':');
    commands_are_written_out(backend, server, ip, ip, port, 0, ip);
    if text::split_at_last(port, ':') is Some {
        let (a, b) = text::split_at_last(port, ':')->0;
        assert(port[a.len() as int] == ':');
        assert(port.contains(port[a.len() as int]));
    }
}

/// HAProxy's answer is an error just where it starts with one of six words.
pub proof fn errors_start_like_errors(answer: Seq<char>)
    ensures
        runtime::reports_error(answer) <==> ("Can't"@.is_prefix_of(answer)
            || "No such"@.is_prefix_of(answer) || "Unknown"@.is_prefix_of(answer)
            || "Invalid"@.is_prefix_of(answer) || "Alert"@.is_prefix_of(answer)
            || "error"@.is_prefix_of(answer)),
{
}

/// Errors in words.
pub proof fn errors_are_told(e: Seq<char>)
    ensures
        RuntimeErrorView::Io(e).text() == "io error: "@ + e,
        RuntimeErrorView::Response(e).text() == "haproxy returned an error response: "@ + e,
        RuntimeErrorView::Unsupported.text() == "unix sockets are not supported on this platform"@,
        ConfigErrorView::Io(e).text() == "io error: "@ + e,
        ConfigErrorView::FrontendNotFound.text()
            == "frontend section not found in haproxy config — cannot insert ACL"@,
        ConfigErrorView::ValidationFailed(e).text() == "haproxy config validation failed: "@ + e,
        ConfigErrorView::ReloadFailed(e).text() == "haproxy reload failed: "@ + e,
        ErrorView::Subdomain(e).text() == "subdomain error: "@ + e,
        ErrorView::Runtime(RuntimeErrorView::Response(e)).text() == "runtime API error: "@ + (
        "haproxy returned an error response: "@ + e),
        ErrorView::Runtime(RuntimeErrorView::Io(e)).text() == "runtime API error: "@ + ("io error: "@
            + e),
        ErrorView::Config(ConfigErrorView::ReloadFailed(e)).text() == "config error: "@ + (
        "haproxy reload failed: "@ + e),
        ErrorView::Config(ConfigErrorView::ValidationFailed(e)).text() == "config error: "@ + (
        "haproxy config validation failed: "@ + e),
{
}

/// An error says that a server is not there just where HAProxy said so in these words.
pub proof fn missing_servers_are_told(before: Seq<char>, after: Seq<char>, e: RuntimeErrorView)
    ensures
        RuntimeErrorView::Response(before + "No such server"@ + after).says_no_such_server(),
        e.says_no_such_server() <==> text::has_part(e.text(), "No such server"@),
{
    let words = "haproxy returned an error response: "@;
    texts::parts_are_found(words + before, "No such server"@, after);
    assert(words + before + "No such server"@ + after =~= words + (before + "No such server"@
        + after));
}

// ── runs ────────────────────────────────────────────────────────────────────
/// A run sends the command of its first thing to do. A good answer takes it on to the
/// next one. A refusal ends it, unless the server is not there and there is another
/// command for that case: then that one is sent, and its refusal ends the run.
pub proof fn runs_go_on_until_one_fails(
    run: RunView,
    command: Seq<char>,
    answer: Seq<char>,
    e: RuntimeErrorView,
)
    requires
        run.failed is None,
        run.todo.len() > 0,
        run.second ==> run.todo[0].fallback == Some(command),
        !run.second ==> run.todo[0].first == Ok::<Seq<char>, RuntimeErrorView>(command),
    ensures
        run.command() == Some(command),
        run.outcome() is None,
        run.todo.len() == 1 ==> run.after(Ok(answer)).outcome() == Some(
            Ok::<(), RuntimeErrorView>(()),
        ) && run.after(Ok(answer)).command() is None,
        run.todo.len() > 1 && run.todo[1].first is Ok ==> run.after(Ok(answer)).todo
            == run.todo.skip(1) && run.after(Ok(answer)).command() == Some(
            run.todo[1].first->Ok_0,
        ) && run.after(Ok(answer)).outcome() is None && !run.after(Ok(answer)).second,
        run.todo.len() > 1 && run.todo[1].first is Err && run.todo[1].fallback is None
            ==> run.after(Ok(answer)).outcome() == Some(
            Err::<(), RuntimeErrorView>(run.todo[1].first->Err_0),
        ),
        ({
            let again = !run.second && run.todo[0].fallback is Some && text::has_part(
                e.text(),
                "No such server"@,
            );
            &&& again ==> run.after(Err(e)).command() == run.todo[0].fallback && run.after(
                Err(e),
            ).outcome() is None && run.after(Err(e)).todo == run.todo && run.after(Err(e)).second
            &&& !again ==> run.after(Err(e)).outcome() == Some(Err::<(), RuntimeErrorView>(e))
                && run.after(Err(e)).command() is None
        }),
{
    assert(run.todo.drop_first() =~= run.todo.skip(1));
}

/// A run that has failed or has nothing left to do stays as it is.
pub proof fn ended_runs_stay(run: RunView, answer: Result<Seq<char>, RuntimeErrorView>)
    ensures
        run.failed is Some ==> run.command() is None && run.after(answer) == run && run.outcome()
            == Some(Err::<(), RuntimeErrorView>(run.failed->0)),
        run.failed is None && run.todo.len() == 0 ==> run.command() is None && run.after(answer)
            == run && run.outcome() == Some(Ok::<(), RuntimeErrorView>(())),
{
}

/// A run starts with the first thing to do. Where that has no command, it fails at once,
/// but for a server that is not there.
pub proof fn runs_start_at_the_front(todo: Seq<AttemptView>)
    ensures
        run::starting(todo).todo == todo,
        todo.len() == 0 || todo[0].first is Ok ==> run::starting(todo).failed is None
            && !run::starting(todo).second,
        todo.len() > 0 && todo[0].first is Err && (todo[0].fallback is None || !text::has_part(
            todo[0].first->Err_0.text(),
            "No such server"@,
        )) ==> run::starting(todo).outcome() == Some(
            Err::<(), RuntimeErrorView>(todo[0].first->Err_0),
        ),
{
}

/// A server is added by three commands: the server, its weight, and that it is ready.
pub proof fn adding_takes_three_commands(
    backend: Seq<char>,
    server: Seq<char>,
    addr: Seq<char>,
    weight: u32,
    first: Seq<char>,
    second: Seq<char>,
    third: Seq<char>,
)
    ensures
        ({
            let start = run::starting(haproxy::add_steps(backend, server, addr, weight));
            &&& start.command() == Some("add server "@ + backend + "/"@ + server + " "@ + addr)
            &&& start.after(Ok(first)).command() == Some(
                "set weight "@ + backend + "/"@ + server + " "@ + text::decimal(weight as nat),
            )
            &&& start.after(Ok(first)).after(Ok(second)).command() == Some(
                "set server "@ + backend + "/"@ + server + " state "@ + "ready"@,
            )
            &&& start.after(Ok(first)).after(Ok(second)).after(Ok(third)).outcome() == Some(
                Ok::<(), RuntimeErrorView>(()),
            )
        }),
{
    commands_are_written_out(backend, server, addr, addr, addr, weight, "ready"@);
}

/// A server is removed by two commands: it goes into maintenance first.
pub proof fn removing_takes_two_commands(
    backend: Seq<char>,
    server: Seq<char>,
    first: Seq<char>,
    second: Seq<char>,
)
    ensures
        ({
            let start = run::starting(haproxy::remove_steps(backend, server));
            &&& start.command() == Some(
                "set server "@ + backend + "/"@ + server + " state "@ + "maint"@,
            )
            &&& start.after(Ok(first)).command() == Some(
                "del server "@ + backend + "/"@ + server,
            )
            &&& start.after(Ok(first)).after(Ok(second)).outcome() == Some(
                Ok::<(), RuntimeErrorView>(()),
            )
        }),
{
    commands_are_written_out(backend, server, server, server, server, 0, "maint"@);
}

/// A server is put at an address by moving it there or, where it is not there, adding it;
/// then come its weight, and that it is ready.
pub proof fn upserting_moves_or_adds(
    backend: Seq<char>,
    server: Seq<char>,
    ip: Seq<char>,
    port: Seq<char>,
    weight: u32,
    e: RuntimeErrorView,
    first: Seq<char>,
    second: Seq<char>,
    third: Seq<char>,
)
    requires
        !port.contains(':'),
    ensures
        ({
            let start = run::starting(
                haproxy::upsert_steps(backend, server, ip + seq![':'] + port, weight),
            );
            let weighing = Some(
                "set weight "@ + backend + "/"@ + server + " "@ + text::decimal(weight as nat),
            );
            let moved = start.after(Ok(first));
            let missing = start.after(Err(e));
            &&& start.command() == Some(
                "set server "@ + backend + "/"@ + server + " addr "@ + ip + " port "@ + port,
            )
            &&& moved.command() == weighing
            &&& moved.after(Ok(second)).command() == Some(
                "set server "@ + backend + "/"@ + server + " state "@ + "ready"@,
            )
            &&& moved.after(Ok(second)).after(Ok(third)).outcome() == Some(
                Ok::<(), RuntimeErrorView>(()),
            )
            &&& text::has_part(e.text(), "No such server"@) ==> missing.command() == Some(
                "add server "@ + backend + "/"@ + server + " "@ + (ip + seq![':'] + port),
            ) && missing.after(Ok(first)).command() == weighing
            &&& !text::has_part(e.text(), "No such server"@) ==> missing.outcome() == Some(
                Err::<(), RuntimeErrorView>(e),
            )
        }),
{
    let addr = ip + seq![':'] + port;
    commands_are_written_out(backend, server, addr, ip, port, weight, "ready"@);
    addresses_are_split(backend, server, ip, port);
}

/// A server moves in maintenance: it is taken out, moved and put back.
pub proof fn moving_takes_three_commands(
    backend: Seq<char>,
    server: Seq<char>,
    ip: Seq<char>,
    port: Seq<char>,
    first: Seq<char>,
    second: Seq<char>,
    third: Seq<char>,
)
    requires
        !port.contains(':'),
    ensures
        ({
            let start = run::starting(
                haproxy::move_steps(backend, server, ip + seq![':'] + port),
            );
            &&& start.command() == Some(
                "set server "@ + backend + "/"@ + server + " state "@ + "maint"@,
            )
            &&& start.after(Ok(first)).command() == Some(
                "set server "@ + backend + "/"@ + server + " addr "@ + ip + " port "@ + port,
            )
            &&& start.after(Ok(first)).after(Ok(second)).command() == Some(
                "set server "@ + backend + "/"@ + server + " state "@ + "ready"@,
            )
            &&& start.after(Ok(first)).after(Ok(second)).after(Ok(third)).outcome() == Some(
                Ok::<(), RuntimeErrorView>(()),
            )
        }),
{
    commands_are_written_out(backend, server, ip, ip, port, 0, "ready"@);
    commands_are_written_out(backend, server, ip, ip, port, 0, "maint"@);
    addresses_are_split(backend, server, ip, port);
}

/// One command alone is one thing to do.
pub proof fn single_commands_are_sent(command: Seq<char>, answer: Seq<char>)
    ensures
        run::starting(seq![run::plain(command)]).command() == Some(command),
        run::starting(seq![run::plain(command)]).after(Ok(answer)).outcome() == Some(
            Ok::<(), RuntimeErrorView>(()),
        ),
{
}

// ── assignments ─────────────────────────────────────────────────────────────
/// A service has a backend of its own, and an edit that adds it is about that backend and
/// the domain that was asked for.
pub proof fn services_have_their_backend(service: Seq<char>, domain: Seq<char>, addr: Seq<char>)
    ensures
        haproxy::service_backend(service) == "svc_"@ + service,
        haproxy::adding(service, domain).service == service,
        haproxy::adding(service, domain).domain == Some(domain),
        haproxy::adding(service, domain).stage is Reading,
        assign::starting(service, domain, addr).service == service,
        assign::starting(service, domain, addr).addr == addr,
        assign::starting(service, domain, addr).stage == AssignStageView::Configuring(
            (ConfigEditView {
                service: "svc_"@ + service,
                domain: Some(domain),
                stage: StageView::Reading,
            }),
        ),
{
}

/// An assignment edits the configuration first. Where that succeeds it waits for half a
/// second, and then points the server of the service at the volunteer's address; where
/// it fails, the assignment has failed for the same reason.
pub proof fn assignments_configure_then_point(
    a: AssignmentView,
    edit: ConfigEditView,
    event: EventView,
    ip: Seq<char>,
    port: Seq<char>,
)
    requires
        a.stage == AssignStageView::Configuring(edit),
        !port.contains(':'),
        a.addr == ip + seq![':'] + port,
    ensures
        ({
            let next = a.after(AssignEventView::Config(event));
            let waiting = AssignmentView { stage: AssignStageView::Waiting, ..a };
            let running = waiting.after(AssignEventView::Slept);
            &&& a.action() == AssignActionView::Config(edit.action())
            &&& next.service == a.service
            &&& next.addr == a.addr
            &&& edit.after(event).stage == StageView::Done(Ok(())) ==> next.stage
                == AssignStageView::Waiting
            &&& edit.after(event).stage matches StageView::Done(Err(e)) ==> next.stage
                == AssignStageView::Done(Err(ErrorView::Config(e)))
            &&& !(edit.after(event).stage is Done) ==> next.stage == AssignStageView::Configuring(
                edit.after(event),
            )
            &&& waiting.action() == AssignActionView::Sleep(500)
            &&& running.action() == AssignActionView::Send(
                "set server svc_"@ + a.service + "/primary addr "@ + ip + " port "@ + port,
            )
            &&& running.stage == AssignStageView::Running(
                run::starting(
                    haproxy::upsert_steps("svc_"@ + a.service, "primary"@, a.addr, 100),
                ),
            )
        }),
{
    upserting_moves_or_adds(
        haproxy::service_backend(a.service),
        "primary"@,
        ip,
        port,
        100,
        RuntimeErrorView::Unsupported,
        ip,
        ip,
        ip,
    );
    reveal_strlit("set server ");
    reveal_strlit("svc_");
    reveal_strlit("set server svc_");
    reveal_strlit("/");
    reveal_strlit("primary");
    reveal_strlit(" addr ");
    reveal_strlit("/primary addr ");
    reveal_strlit(" port ");
    assert("set server "@ + haproxy::service_backend(a.service) + "/"@ + "primary"@ + " addr "@ + ip
        + " port "@ + port =~= "set server svc_"@ + a.service + "/primary addr "@ + ip + " port "@
        + port);
    match edit.after(event).stage {
        StageView::Done(Ok(unit)) => {
            assert(unit == ());
        },
        _ => {},
    }
}

/// An assignment ends as its run of commands ends, and sends what the run sends.
pub proof fn assignments_end_with_their_run(
    a: AssignmentView,
    run: RunView,
    answer: Result<Seq<char>, RuntimeErrorView>,
)
    requires
        a.stage == AssignStageView::Running(run),
    ensures
        ({
            let next = a.after(AssignEventView::Answered(answer));
            &&& run.command() is Some ==> a.action() == AssignActionView::Send(run.command()->0)
            &&& run.after(answer).outcome() == Some(Ok::<(), RuntimeErrorView>(())) ==> next.stage
                == AssignStageView::Done(Ok(())) && next.action() == AssignActionView::Finish
            &&& run.after(answer).outcome() matches Some(Err(e)) ==> next.stage
                == AssignStageView::Done(Err(ErrorView::Runtime(e))) && next.action()
                == AssignActionView::Finish
            &&& run.after(answer).outcome() is None ==> next.stage == AssignStageView::Running(
                run.after(answer),
            )
        }),
{
}

// ── edits ───────────────────────────────────────────────────────────────────
/// What an edit does at each stage.
pub proof fn edits_act_by_their_stage(edit: ConfigEditView)
    ensures
        edit.stage is Reading ==> edit.action() == ActionView::Read,
        edit.stage matches StageView::Writing { before, after } ==> edit.action()
            == ActionView::Write(after),
        edit.stage is Validating ==> edit.action() == ActionView::Validate,
        edit.stage matches StageView::Restoring { before, cause } ==> edit.action()
            == ActionView::Write(before),
        edit.stage is Reloading ==> edit.action() == ActionView::Reload,
        edit.stage is Settling ==> edit.action() == ActionView::Sleep(750),
        edit.stage is Done ==> edit.action() == ActionView::Finish,
{
}

/// An edit that was read goes on to write what the file is to hold, to validate, to
/// reload and to wait; one that was rejected puts back what the file held and fails.
pub proof fn edits_go_through_their_stages(
    edit: ConfigEditView,
    content: Seq<char>,
    text: Seq<char>,
    words: Seq<char>,
    e: ConfigErrorView,
)
    ensures
        ({
            let read = ConfigEditView { stage: StageView::Reading, ..edit };
            let write = ConfigEditView {
                stage: StageView::Writing { before: content, after: text },
                ..edit
            };
            let validate = ConfigEditView {
                stage: StageView::Validating { before: content },
                ..edit
            };
            let restore = ConfigEditView {
                stage: StageView::Restoring { before: content, cause: e },
                ..edit
            };
            let reload = ConfigEditView { stage: StageView::Reloading, ..edit };
            let settle = ConfigEditView { stage: StageView::Settling, ..edit };
            let wrote = EventView::Wrote(Ok(()));
            let io = StageView::Done(Err(ConfigErrorView::Io(words)));
            &&& read.after(EventView::Read(Err(words))).stage == io
            &&& write.after(wrote).stage == StageView::Validating { before: content }
            &&& write.after(EventView::Wrote(Err(words))).stage == io
            &&& validate.after(EventView::Validated(Ok(()))).stage is Reloading
            &&& validate.after(EventView::Validated(Err(e))).stage == StageView::Restoring {
                before: content,
                cause: e,
            }
            &&& restore.after(wrote).stage == StageView::Done(Err(e))
            &&& restore.after(EventView::Wrote(Err(words))).stage == io
            &&& reload.after(EventView::Reloaded(Ok(()))).stage is Settling
            &&& reload.after(EventView::Reloaded(Err(e))).stage == StageView::Done(Err(e))
            &&& settle.after(EventView::Slept).stage == StageView::Done(Ok(()))
        }),
{
}

/// An edit stays about the same service and the same domain, and an event that does not
/// fit its stage leaves it as it is.
pub proof fn edits_heed_only_what_fits(edit: ConfigEditView, event: EventView)
    ensures
        edit.after(event).service == edit.service,
        edit.after(event).domain == edit.domain,
        edit.stage is Reading && !(event is Read) ==> edit.after(event) == edit,
        (edit.stage is Writing || edit.stage is Restoring) && !(event is Wrote) ==> edit.after(
            event,
        ) == edit,
        edit.stage is Validating && !(event is Validated) ==> edit.after(event) == edit,
        edit.stage is Reloading && !(event is Reloaded) ==> edit.after(event) == edit,
        edit.stage is Settling && !(event is Slept) ==> edit.after(event) == edit,
        edit.stage is Done ==> edit.after(event) == edit,
{
}

/// An assignment stays about the same service and the same address, and an event that does
/// not fit its stage leaves it as it is.
pub proof fn assignments_heed_only_what_fits(a: AssignmentView, event: AssignEventView)
    ensures
        a.after(event).service == a.service,
        a.after(event).addr == a.addr,
        a.stage is Configuring && !(event is Config) ==> a.after(event) == a,
        a.stage is Waiting && !(event is Slept) ==> a.after(event) == a,
        a.stage is Running && !(event is Answered) ==> a.after(event) == a,
        a.stage is Done ==> a.after(event) == a && a.action() == AssignActionView::Finish,
{
}

/// Edits, assignments and what they do are shown as they are.
pub proof fn work_is_shown(
    action: Action,
    event: Event,
    doing: AssignAction,
    came: AssignEvent,
    error: ConfigError,
    refused: RuntimeError,
    failed: Error,
)
    ensures
        match action {
            Action::Read => action@ == ActionView::Read,
            Action::Write(content) => action@ == ActionView::Write(content@),
            Action::Validate => action@ == ActionView::Validate,
            Action::Reload => action@ == ActionView::Reload,
            Action::Sleep(ms) => action@ == ActionView::Sleep(ms),
            Action::Finish => action@ == ActionView::Finish,
        },
        match event {
            Event::Read(Ok(content)) => event@ == EventView::Read(Ok(content@)),
            Event::Read(Err(e)) => event@ == EventView::Read(Err(e@)),
            Event::Wrote(Ok(_)) => event@ == EventView::Wrote(Ok(())),
            Event::Wrote(Err(e)) => event@ == EventView::Wrote(Err(e@)),
            Event::Validated(Ok(_)) => event@ == EventView::Validated(Ok(())),
            Event::Validated(Err(e)) => event@ == EventView::Validated(Err(e@)),
            Event::Reloaded(Ok(_)) => event@ == EventView::Reloaded(Ok(())),
            Event::Reloaded(Err(e)) => event@ == EventView::Reloaded(Err(e@)),
            Event::Slept => event@ == EventView::Slept,
        },
        match doing {
            AssignAction::Config(act) => doing@ == AssignActionView::Config(act@),
            AssignAction::Sleep(ms) => doing@ == AssignActionView::Sleep(ms),
            AssignAction::Send(command) => doing@ == AssignActionView::Send(command@),
            AssignAction::Finish => doing@ == AssignActionView::Finish,
        },
        match came {
            AssignEvent::Config(e) => came@ == AssignEventView::Config(e@),
            AssignEvent::Slept => came@ == AssignEventView::Slept,
            AssignEvent::Answered(Ok(words)) => came@ == AssignEventView::Answered(Ok(words@)),
            AssignEvent::Answered(Err(e)) => came@ == AssignEventView::Answered(Err(e@)),
        },
        match error {
            ConfigError::Io(e) => error@ == ConfigErrorView::Io(e@),
            ConfigError::FrontendNotFound => error@ == ConfigErrorView::FrontendNotFound,
            ConfigError::ValidationFailed(e) => error@ == ConfigErrorView::ValidationFailed(e@),
            ConfigError::ReloadFailed(e) => error@ == ConfigErrorView::ReloadFailed(e@),
        },
        match refused {
            RuntimeError::Io(e) => refused@ == RuntimeErrorView::Io(e@),
            RuntimeError::Response(e) => refused@ == RuntimeErrorView::Response(e@),
            RuntimeError::Unsupported => refused@ == RuntimeErrorView::Unsupported,
        },
        match failed {
            Error::Runtime(e) => failed@ == ErrorView::Runtime(e@),
            Error::Config(e) => failed@ == ErrorView::Config(e@),
            Error::Subdomain(e) => failed@ == ErrorView::Subdomain(e@),
        },
{
}

/// An edit that adds a service leaves a file alone that has it, fails where no rule is in
/// the file, and else writes the new text. One that removes a service leaves a file alone
/// that does not have it.
pub proof fn edits_change_what_they_must(edit: ConfigEditView, content: Seq<char>)
    requires
        edit.stage is Reading,
    ensures
        ({
            let next = edit.after(EventView::Read(Ok(content))).stage;
            let there = config::lists(content, edit.service);
            &&& edit.domain is Some && there ==> next == StageView::Done(Ok(()))
            &&& edit.domain is None && !there ==> next == StageView::Done(Ok(()))
            &&& edit.domain is Some && !there && !has_rule(content) ==> next == StageView::Done(
                Err(ConfigErrorView::FrontendNotFound),
            )
            &&& edit.domain is Some && !there && has_rule(content) ==> next == StageView::Writing {
                before: content,
                after: config::with_service(content, edit.service, edit.domain->0)->0,
            }
            &&& edit.domain is None && there ==> next == StageView::Writing {
                before: content,
                after: config::without_service(content, edit.service),
            }
        }),
{
    let all = text::lines_of(content);
    let at = lemma_first_rule(all);
}

// ── the configuration ───────────────────────────────────────────────────────
/// Whether a line is a routing rule: without the white space around it, it starts with
/// one of two words.
pub open spec fn rules(line: Seq<char>) -> bool {
    "default_backend"@.is_prefix_of(text::trimmed(line)) || "use_backend"@.is_prefix_of(
        text::trimmed(line),
    )
}

/// Whether some line of a text is a routing rule.
pub open spec fn has_rule(content: Seq<char>) -> bool {
    exists|i: int|
        0 <= i < text::lines_of(content).len() && rules(#[trigger] text::lines_of(content)[i])
}

proof fn lemma_first_rule(all: Seq<Seq<char>>) -> (at: int)
    ensures
        at == config::lines_before_rule(all),
        0 <= at <= all.len(),
        at < all.len() ==> rules(all[at]),
        forall|i: int| 0 <= i < at ==> !rules(#[trigger] all[i]),
    decreases all.len(),
{
    if all.len() == 0 || config::is_rule(all[0]) {
        0
    } else {
        let rest = all.drop_first();
        let k = lemma_first_rule(rest);
        assert forall|i: int| 0 <= i < k + 1 implies !rules(#[trigger] all[i]) by {
            if i > 0 {
                assert(all[i] == rest[i - 1]);
            }
        }
        if k < rest.len() {
            assert(rest[k] == all[k + 1]);
        }
        k + 1
    }
}

/// The lines of a service, as they are written.
pub proof fn service_lines_are_written_out(service: Seq<char>, domain: Seq<char>)
    ensures
        config::marker(service) == "acl host_"@ + service + " "@,
        config::header(service) == "backend "@ + service,
        config::acl_line(service, domain) == "    acl host_"@ + service + " hdr(host) -i "@ + domain,
        config::use_line(service) == "    use_backend "@ + service + " if host_"@ + service,
        config::block(service) == "\n"@ + ("backend "@ + service) + "\n"@
            + "    balance leastconn\n    option http-server-close\n    option httpchk GET /\n    http-check expect rstatus 2[0-9][0-9]\n    http-response set-header X-Served-By %[srv_name]"@
            + "\n"@,
{
    let one = "    balance leastconn"@;
    let two = "    option http-server-close"@;
    let three = "    option httpchk GET /"@;
    let four = "    http-check expect rstatus 2[0-9][0-9]"@;
    let five = "    http-response set-header X-Served-By %[srv_name]"@;
    let sep = "\n"@;
    assert(config::body_lines() =~= seq![one] + seq![two, three, four, five]);
    assert(seq![two, three, four, five] =~= seq![two] + seq![three, four, five]);
    assert(seq![three, four, five] =~= seq![three] + seq![four, five]);
    assert(seq![four, five] =~= seq![four] + seq![five]);
    texts::joining_keeps_the_parts(one, seq![two, three, four, five], sep);
    texts::joining_keeps_the_parts(two, seq![three, four, five], sep);
    texts::joining_keeps_the_parts(three, seq![four, five], sep);
    texts::joining_keeps_the_parts(four, seq![five], sep);
    texts::joining_keeps_the_parts(five, Seq::empty(), sep);
    reveal_strlit("    balance leastconn");
    reveal_strlit("    option http-server-close");
    reveal_strlit("    option httpchk GET /");
    reveal_strlit("    http-check expect rstatus 2[0-9][0-9]");
    reveal_strlit("    http-response set-header X-Served-By %[srv_name]");
    reveal_strlit("\n");
    reveal_strlit(
        "    balance leastconn\n    option http-server-close\n    option httpchk GET /\n    http-check expect rstatus 2[0-9][0-9]\n    http-response set-header X-Served-By %[srv_name]",
    );
    assert(one + sep + (two + sep + (three + sep + (four + sep + five)))
        =~= "    balance leastconn\n    option http-server-close\n    option httpchk GET /\n    http-check expect rstatus 2[0-9][0-9]\n    http-response set-header X-Served-By %[srv_name]"@);
}

/// A service is in the file just where some line, without the white space around it,
/// starts with its marker.
pub proof fn services_are_found_by_their_line(content: Seq<char>, service: Seq<char>)
    ensures
        config::lists(content, service) <==> exists|i: int|
            0 <= i < text::lines_of(content).len() && ("acl host_"@ + service + " "@).is_prefix_of(
                text::trimmed(#[trigger] text::lines_of(content)[i]),
            ),
{
    if config::lists(content, service) {
        let i = choose|i: int|
            0 <= i < text::lines_of(content).len() && config::line_lists(
                #[trigger] text::lines_of(content)[i],
                service,
            );
        assert(("acl host_"@ + service + " "@).is_prefix_of(
            text::trimmed(text::lines_of(content)[i]),
        ));
    }
    if exists|i: int|
        0 <= i < text::lines_of(content).len() && ("acl host_"@ + service + " "@).is_prefix_of(
            text::trimmed(#[trigger] text::lines_of(content)[i]),
        ) {
        let i = choose|i: int|
            0 <= i < text::lines_of(content).len() && ("acl host_"@ + service + " "@).is_prefix_of(
                text::trimmed(#[trigger] text::lines_of(content)[i]),
            );
        assert(config::line_lists(text::lines_of(content)[i], service));
    }
}

/// A service goes into the file with its two lines directly before the first rule and its
/// backend at the end; all other lines stay as they are. Without a rule it does not go in.
pub proof fn services_go_before_the_first_rule(
    content: Seq<char>,
    service: Seq<char>,
    domain: Seq<char>,
) -> (at: int)
    ensures
        ({
            let all = text::lines_of(content);
            &&& config::with_service(content, service, domain) is None <==> !has_rule(content)
            &&& has_rule(content) ==> {
                &&& 0 <= at < all.len()
                &&& rules(all[at])
                &&& forall|i: int| 0 <= i < at ==> !rules(#[trigger] all[i])
                &&& config::with_service(content, service, domain) == Some(
                    text::joined(
                        all.take(at) + seq![
                            "    acl host_"@ + service + " hdr(host) -i "@ + domain,
                            "    use_backend "@ + service + " if host_"@ + service,
                        ] + all.skip(at) + seq![config::block(service)],
                        "\n"@,
                    ),
                )
            }
        }),
{
    let all = text::lines_of(content);
    lemma_first_rule(all)
}

/// Whether a line opens a section: it is not empty and has no indent.
pub open spec fn opens(line: Seq<char>) -> bool {
    line.len() > 0 && line[0] != ' ' && line[0] != '\t'
}

/// Whether a line stands in the backend section of a service: it, or the nearest line
/// before it that opens a section, opens that one.
pub open spec fn stands_in_backend(all: Seq<Seq<char>>, service: Seq<char>, i: int) -> bool {
    exists|j: int|
        0 <= j <= i && opens(#[trigger] all[j]) && text::trimmed(all[j]) == "backend "@ + service
            && forall|k: int| j < k <= i ==> !opens(#[trigger] all[k])
}

proof fn lemma_in_backend(all: Seq<Seq<char>>, service: Seq<char>, n: int)
    requires
        -1 <= n < all.len(),
    ensures
        config::in_backend(all, service, n) <==> stands_in_backend(all, service, n),
    decreases n + 1,
{
    if n >= 0 {
        lemma_in_backend(all, service, n - 1);
        if opens(all[n]) {
            if stands_in_backend(all, service, n) {
                let j = choose|j: int|
                    0 <= j <= n && opens(#[trigger] all[j]) && text::trimmed(all[j]) == "backend "@
                        + service && forall|k: int| j < k <= n ==> !opens(#[trigger] all[k]);
                if j < n {
                    assert(!opens(all[n]));
                }
            }
            if config::in_backend(all, service, n) {
                assert(opens(all[n]) && text::trimmed(all[n]) == "backend "@ + service);
            }
        } else {
            if stands_in_backend(all, service, n) {
                let j = choose|j: int|
                    0 <= j <= n && opens(#[trigger] all[j]) && text::trimmed(all[j]) == "backend "@
                        + service && forall|k: int| j < k <= n ==> !opens(#[trigger] all[k]);
                assert(j < n);
                assert(stands_in_backend(all, service, n - 1)) by {
                    assert(opens(all[j]));
                }
            }
            if stands_in_backend(all, service, n - 1) {
                let j = choose|j: int|
                    0 <= j <= n - 1 && opens(#[trigger] all[j]) && text::trimmed(all[j])
                        == "backend "@ + service && forall|k: int|
                        j < k <= n - 1 ==> !opens(#[trigger] all[k]);
                assert forall|k: int| j < k <= n implies !opens(#[trigger] all[k]) by {}
                assert(opens(all[j]));
            }
        }
    }
}

/// The lines that are left of some when a service is removed: all but its two routing
/// lines, whatever their indent, and its backend section.
pub open spec fn left(all: Seq<Seq<char>>, service: Seq<char>, n: nat) -> Seq<Seq<char>>
    decreases n,
{
    if n == 0 {
        Seq::empty()
    } else {
        let line = all[n - 1];
        let bare = text::trimmed_start(line);
        if stands_in_backend(all, service, n - 1) || ("acl host_"@ + service + " "@).is_prefix_of(
            bare,
        ) || ("use_backend "@ + service + " "@).is_prefix_of(bare) {
            left(all, service, (n - 1) as nat)
        } else {
            left(all, service, (n - 1) as nat).push(line)
        }
    }
}

proof fn lemma_left(all: Seq<Seq<char>>, service: Seq<char>, n: nat)
    requires
        n <= all.len(),
    ensures
        config::lines_without(all, service, n) == left(all, service, n),
    decreases n,
{
    if n > 0 {
        lemma_left(all, service, (n - 1) as nat);
        lemma_in_backend(all, service, n - 1);
    }
}

/// Removing a service takes out its routing lines and its backend section, and nothing
/// else: all other lines stay, in their order.
pub proof fn removing_takes_out_the_service_alone(content: Seq<char>, service: Seq<char>)
    ensures
        ({
            let all = text::lines_of(content);
            config::without_service(content, service) == text::joined(
                left(all, service, all.len()),
                "\n"@,
            )
        }),
{
    let all = text::lines_of(content);
    lemma_left(all, service, all.len());
}

/// The service backends that are listed are those whose opening line is in the file, in
/// their order and by their names.
pub proof fn listed_backends_are_in_the_file(line: Seq<char>, name: Seq<char>, all: Seq<Seq<char>>, n: nat)
    requires
        n <= all.len(),
    ensures
        text::trimmed(line) == "backend svc_"@ + name ==> config::listed_backend(line) == Some(
            "svc_"@ + name,
        ),
        !"backend svc_"@.is_prefix_of(text::trimmed(line)) ==> config::listed_backend(line) is None,
        config::backends_in(all, 0).len() == 0,
        n > 0 && config::listed_backend(all[n - 1]) is Some ==> config::backends_in(all, n)
            == config::backends_in(all, (n - 1) as nat).push(
            config::listed_backend(all[n - 1])->0,
        ),
        n > 0 && config::listed_backend(all[n - 1]) is None ==> config::backends_in(all, n)
            == config::backends_in(all, (n - 1) as nat),
{
    reveal_strlit("backend svc_");
    reveal_strlit("backend ");
    reveal_strlit("svc_");
    let whole = "backend svc_"@ + name;
    assert(whole.take("backend svc_"@.len() as int) =~= "backend svc_"@);
    assert(whole.skip(8) =~= "svc_"@ + name);
}

/// All lines of a file are looked through for service backends.
pub proof fn all_lines_are_looked_through(content: Seq<char>)
    ensures
        config::backends_of(content) == config::backends_in(
            text::lines_of(content),
            text::lines_of(content).len(),
        ),
{
}

// ── calls ───────────────────────────────────────────────────────────────────
/// Commands are given back as they are sent.
pub proof fn commands_are_given_back(
    backend: &str,
    server: &str,
    addr: &str,
    weight: u32,
    state: &str,
    added: String,
    removed: String,
    weighed: String,
    put: String,
    line: String,
)
    requires
        call_ensures(runtime::add_server, (backend, server, addr), added),
        call_ensures(runtime::remove_server, (backend, server), removed),
        call_ensures(runtime::set_weight, (backend, server, weight), weighed),
        call_ensures(runtime::set_state, (backend, server, state), put),
        call_ensures(runtime::command_line, (addr,), line),
    ensures
        added@ == "add server "@ + backend@ + "/"@ + server@ + " "@ + addr@,
        removed@ == "del server "@ + backend@ + "/"@ + server@,
        weighed@ == "set weight "@ + backend@ + "/"@ + server@ + " "@ + text::decimal(
            weight as nat,
        ),
        put@ == "set server "@ + backend@ + "/"@ + server@ + " state "@ + state@,
        line@ == addr@ + "\n"@,
{
    commands_are_written_out(backend@, server@, addr@, addr@, addr@, weight, state@);
}

/// A command that moves a server is given back for an address with a port; an address
/// without a colon is refused.
pub proof fn moves_are_given_back(
    backend: &str,
    server: &str,
    addr: &str,
    command: Result<String, RuntimeError>,
    ip: Seq<char>,
    port: Seq<char>,
)
    requires
        call_ensures(runtime::set_addr, (backend, server, addr), command),
        !port.contains(':'),
    ensures
        addr@ == ip + seq![':'] + port ==> command is Ok && command->Ok_0@ == "set server "@
            + backend@ + "/"@ + server@ + " addr "@ + ip + " port "@ + port,
        addr@ == port ==> command is Err && command->Err_0@ == RuntimeErrorView::Response(
            "invalid addr (expected ip:port): "@ + port,
        ),
{
    addresses_are_split(backend@, server@, ip, port);
}

/// An answer is taken for an error just where, without the white space around it, it
/// starts like one; it is given back without that white space.
pub proof fn answers_are_classified(answer: &str, r: Result<String, RuntimeError>)
    requires
        call_ensures(runtime::classify_response, (answer,), r),
    ensures
        ({
            let bare = text::trimmed(answer@);
            let bad = "Can't"@.is_prefix_of(bare) || "No such"@.is_prefix_of(bare)
                || "Unknown"@.is_prefix_of(bare) || "Invalid"@.is_prefix_of(bare)
                || "Alert"@.is_prefix_of(bare) || "error"@.is_prefix_of(bare);
            &&& bad ==> r is Err && r->Err_0@ == RuntimeErrorView::Response(bare)
            &&& !bad ==> r is Ok && r->Ok_0@ == bare
        }),
{
    errors_start_like_errors(text::trimmed(answer@));
}

/// The runs of the proxy start with their commands: adding with the server and its
/// address, removing with maintenance, weighing with the weight; volunteers are known by
/// their identifiers without hyphens.
pub proof fn runs_start_with_their_commands(
    backend: &str,
    id: u128,
    addr: &str,
    weight: u32,
    adding: RuntimeRun,
    removing: RuntimeRun,
    weighing: RuntimeRun,
)
    requires
        call_ensures(haproxy::add_volunteer, (backend, id, addr, weight), adding),
        call_ensures(haproxy::remove_volunteer, (backend, id), removing),
        call_ensures(haproxy::set_weight, (backend, id, weight), weighing),
    ensures
        ({
            let server = ids::simple_of(id);
            &&& adding@.command() == Some("add server "@ + backend@ + "/"@ + server + " "@ + addr@)
            &&& removing@.command() == Some(
                "set server "@ + backend@ + "/"@ + server + " state "@ + "maint"@,
            )
            &&& weighing@.command() == Some(
                "set weight "@ + backend@ + "/"@ + server + " "@ + text::decimal(weight as nat),
            )
        }),
{
    let server = ids::simple_of(id);
    adding_takes_three_commands(backend@, server, addr@, weight, addr@, addr@, addr@);
    removing_takes_two_commands(backend@, server, addr@, addr@);
    commands_are_written_out(backend@, server, addr@, addr@, addr@, weight, addr@);
}

/// A server that is to be at an address is moved there first, and added there where it is
/// missing; the same holds of volunteers and of the servers of services.
pub proof fn upserts_move_first(
    backend: &str,
    server: &str,
    id: u128,
    addr: &str,
    weight: u32,
    run: RuntimeRun,
    volunteer: RuntimeRun,
    service: RuntimeRun,
    restored: RuntimeRun,
    ip: Seq<char>,
    port: Seq<char>,
    first: Seq<char>,
)
    requires
        call_ensures(haproxy::upsert_server, (backend, server, addr, weight), run),
        call_ensures(haproxy::upsert_volunteer, (backend, id, addr, weight), volunteer),
        call_ensures(haproxy::upsert_svc_server, (backend, addr), service),
        call_ensures(haproxy::restore_service_server, (backend, id, addr), restored),
        addr@ == ip + seq![':'] + port,
        !port.contains(':'),
    ensures
        ({
            let named = "svc_"@ + backend@;
            &&& run@.command() == Some(
                "set server "@ + backend@ + "/"@ + server@ + " addr "@ + ip + " port "@ + port,
            )
            &&& run@.after(Ok(first)).command() == Some(
                "set weight "@ + backend@ + "/"@ + server@ + " "@ + text::decimal(weight as nat),
            )
            &&& volunteer@.command() == Some(
                "set server "@ + backend@ + "/"@ + ids::simple_of(id) + " addr "@ + ip + " port "@
                    + port,
            )
            &&& service@.command() == Some(
                "set server "@ + named + "/"@ + "primary"@ + " addr "@ + ip + " port "@ + port,
            )
            &&& service@.after(Ok(first)).command() == Some(
                "set weight "@ + named + "/"@ + "primary"@ + " "@ + text::decimal(100),
            )
            &&& restored@ == service@
        }),
{
    let e = RuntimeErrorView::Unsupported;
    upserting_moves_or_adds(backend@, server@, ip, port, weight, e, first, first, first);
    upserting_moves_or_adds(backend@, ids::simple_of(id), ip, port, weight, e, first, first, first);
    upserting_moves_or_adds("svc_"@ + backend@, "primary"@, ip, port, 100, e, first, first, first);
}

/// An assignment starts with an edit that adds the service's own backend under its domain,
/// and keeps the address that the backend is to point at.
pub proof fn assignments_start_with_the_configuration(
    service: &str,
    domain: &str,
    id: u128,
    addr: &str,
    assignment: Assignment,
    ensured: ConfigEdit,
    registered: ConfigEdit,
    removed: ConfigEdit,
    name: String,
)
    requires
        call_ensures(assign::assign_service, (service, domain, id, addr), assignment),
        call_ensures(haproxy::ensure_service_config, (service, domain), ensured),
        call_ensures(haproxy::register_service, (service, domain), registered),
        call_ensures(haproxy::unregister_service, (service,), removed),
        call_ensures(haproxy::service_backend_name, (service,), name),
    ensures
        assignment@.addr == addr@,
        assignment@.service == service@,
        assignment@.stage == AssignStageView::Configuring(ensured@),
        ensured@.service == "svc_"@ + service@,
        ensured@.domain == Some(domain@),
        registered@.service == service@,
        registered@.domain == Some(domain@),
        removed@.service == service@,
        removed@.domain is None,
        name@ == "svc_"@ + service@,
{
}

/// The configuration is changed by the calls as it is stated: a service that is not there
/// goes in before the first rule, one that is to go is taken out, and nothing else is.
pub proof fn configurations_are_changed_as_stated(
    content: &str,
    service: &str,
    domain: &str,
    there: bool,
    updated: Result<String, ConfigError>,
    less: String,
)
    requires
        call_ensures(config::service_exists, (content, service), there),
        call_ensures(config::insert_service, (content, service, domain), updated),
        call_ensures(config::delete_service, (content, service), less),
    ensures
        there <==> exists|i: int|
            0 <= i < text::lines_of(content@).len() && ("acl host_"@ + service@
                + " "@).is_prefix_of(text::trimmed(#[trigger] text::lines_of(content@)[i])),
        updated is Ok <==> has_rule(content@),
        updated matches Err(e) ==> e is FrontendNotFound,
        updated matches Ok(more) ==> exists|at: int|
            0 <= at < text::lines_of(content@).len() && rules(#[trigger] text::lines_of(content@)[at])
                && (forall|i: int|
                0 <= i < at ==> !rules(#[trigger] text::lines_of(content@)[i])) && more@
                == text::joined(
                text::lines_of(content@).take(at) + seq![
                    "    acl host_"@ + service@ + " hdr(host) -i "@ + domain@,
                    "    use_backend "@ + service@ + " if host_"@ + service@,
                ] + text::lines_of(content@).skip(at) + seq![config::block(service@)],
                "\n"@,
            ),
        less@ == text::joined(
            left(text::lines_of(content@), service@, text::lines_of(content@).len()),
            "\n"@,
        ),
{
    services_are_found_by_their_line(content@, service@);
    let at = services_go_before_the_first_rule(content@, service@, domain@);
    removing_takes_out_the_service_alone(content@, service@);
    if has_rule(content@) {
        assert(rules(text::lines_of(content@)[at]));
    }
}

/// The texts of a service in the configuration are given back as they are written.
pub proof fn service_texts_are_given_back(
    service: &str,
    domain: &str,
    section: String,
    pair: [String; 2],
    marker: String,
    header: String,
)
    requires
        call_ensures(config::backend_block, (service,), section),
        call_ensures(config::acl_lines, (service, domain), pair),
        call_ensures(config::acl_marker, (service,), marker),
        call_ensures(config::backend_header, (service,), header),
    ensures
        section@ == "\n"@ + ("backend "@ + service@) + "\n"@
            + "    balance leastconn\n    option http-server-close\n    option httpchk GET /\n    http-check expect rstatus 2[0-9][0-9]\n    http-response set-header X-Served-By %[srv_name]"@
            + "\n"@,
        pair@[0]@ == "    acl host_"@ + service@ + " hdr(host) -i "@ + domain@,
        pair@[1]@ == "    use_backend "@ + service@ + " if host_"@ + service@,
        marker@ == "acl host_"@ + service@ + " "@,
        header@ == "backend "@ + service@,
{
    service_lines_are_written_out(service@, domain@);
}

/// Where the proxy's process is to be signalled, and what is said where it cannot be.
pub proof fn reloads_go_to_the_process(
    path: &str,
    words: &str,
    target: Result<u32, ConfigError>,
    error: &str,
    unreadable: ConfigError,
    pid: u32,
    failed: ConfigError,
    success: bool,
    outcome: Result<(), ConfigError>,
)
    requires
        call_ensures(edit::reload_target, (path, words), target),
        call_ensures(edit::pid_unreadable, (path, error), unreadable),
        call_ensures(edit::signal_failed, (pid, error), failed),
        call_ensures(edit::validation_outcome, (success, error), outcome),
    ensures
        target matches Ok(p) ==> text::u32_of(text::trimmed(words@)) == Some(p),
        text::u32_of(text::trimmed(words@)) is None ==> target is Err && target->Err_0@
            == ConfigErrorView::ReloadFailed(
            "invalid PID in "@ + path@ + ": "@ + text::trimmed(words@),
        ),
        unreadable@ == ConfigErrorView::ReloadFailed(
            "cannot read PID file "@ + path@ + ": "@ + error@,
        ),
        failed@ == ConfigErrorView::ReloadFailed(
            "kill -USR2 "@ + text::decimal(pid as nat) + ": "@ + error@,
        ),
        success ==> outcome is Ok,
        !success ==> outcome is Err && outcome->Err_0@ == ConfigErrorView::ValidationFailed(
            text::trimmed(error@),
        ),
{
}

/// Runs, assignments and edits go on as it is stated, and end as it is stated.
pub proof fn work_goes_on_as_stated(
    run: RuntimeRun,
    command: Option<String>,
    answer: Result<String, RuntimeError>,
    next: RuntimeRun,
    edit: ConfigEdit,
    event: Event,
    later: ConfigEdit,
    done: bool,
    assignment: Assignment,
    came: AssignEvent,
    then: Assignment,
)
    requires
        call_ensures(RuntimeRun::command, (&run,), command),
        call_ensures(RuntimeRun::resume, (run, answer), next),
        call_ensures(ConfigEdit::resume, (edit, event), later),
        call_ensures(ConfigEdit::is_done, (&edit,), done),
        call_ensures(Assignment::resume, (assignment, came), then),
    ensures
        command is Some <==> run@.command() is Some,
        command matches Some(c) ==> run@.command() == Some(c@),
        answer matches Ok(a) ==> next@ == run@.after(Ok(a@)),
        answer matches Err(e) ==> next@ == run@.after(Err(e@)),
        later@ == edit@.after(event@),
        done <==> edit@.stage is Done,
        then@ == assignment@.after(came@),
{
}

/// A volunteer that is reached at a new address goes into maintenance, is moved and is
/// ready again; after that so is the server of its service.
pub proof fn moves_go_through_maintenance(
    id: u128,
    addr: &str,
    service: Option<(String, String)>,
    run: RuntimeRun,
    ip: Seq<char>,
    port: Seq<char>,
    first: Seq<char>,
)
    requires
        call_ensures(haproxy::update_volunteer_addr, (id, addr, service), run),
        addr@ == ip + seq![':'] + port,
        !port.contains(':'),
    ensures
        ({
            let path = "volunteers"@ + "/"@ + ids::simple_of(id);
            let moved = run@.after(Ok(first));
            let ready = moved.after(Ok(first));
            let pair = service->0;
            &&& run@.command() == Some("set server "@ + path + " state "@ + "maint"@)
            &&& moved.command() == Some(
                "set server "@ + path + " addr "@ + ip + " port "@ + port,
            )
            &&& ready.command() == Some("set server "@ + path + " state "@ + "ready"@)
            &&& service is None ==> ready.after(Ok(first)).outcome() == Some(
                Ok::<(), RuntimeErrorView>(()),
            )
            &&& service is Some ==> ready.after(Ok(first)).command() == Some(
                "set server "@ + ("svc_"@ + pair.0@ + "/"@ + "primary"@) + " state "@
                    + "maint"@,
            )
        }),
{
    let server = ids::simple_of(id);
    let path = "volunteers"@ + "/"@ + server;
    commands_are_written_out("volunteers"@, server, ip, ip, port, 0, "maint"@);
    commands_are_written_out("volunteers"@, server, ip, ip, port, 0, "ready"@);
    addresses_are_split("volunteers"@, server, ip, port);
    assert("set server "@ + "volunteers"@ + "/"@ + server + " state "@ + "maint"@
        =~= "set server "@ + path + " state "@ + "maint"@);
    assert("set server "@ + "volunteers"@ + "/"@ + server + " state "@ + "ready"@
        =~= "set server "@ + path + " state "@ + "ready"@);
    assert("set server "@ + "volunteers"@ + "/"@ + server + " addr "@ + ip + " port "@ + port
        =~= "set server "@ + path + " addr "@ + ip + " port "@ + port);
    if let Some((name, at)) = service {
        let backend = "svc_"@ + name@;
        commands_are_written_out(backend, "primary"@, ip, ip, port, 0, "maint"@);
        assert("set server "@ + backend + "/"@ + "primary"@ + " state "@ + "maint"@
            =~= "set server "@ + ("svc_"@ + name@ + "/"@ + "primary"@) + " state "@ + "maint"@);
    }
}

/// Runs, edits and assignments say what to do and how they ended as it is stated.
pub proof fn ends_are_told(
    run: RuntimeRun,
    outcome: Option<Result<(), RuntimeError>>,
    edit: ConfigEdit,
    act: Action,
    end: Option<Result<(), ConfigError>>,
    assignment: Assignment,
    doing: AssignAction,
    result: Option<Result<(), Error>>,
    command: String,
    attempt: Attempt,
)
    requires
        call_ensures(RuntimeRun::outcome, (&run,), outcome),
        call_ensures(ConfigEdit::action, (&edit,), act),
        call_ensures(ConfigEdit::outcome, (edit,), end),
        call_ensures(Assignment::action, (&assignment,), doing),
        call_ensures(Assignment::outcome, (assignment,), result),
        call_ensures(run::plainly, (command,), attempt),
    ensures
        outcome is None <==> run@.outcome() is None,
        outcome matches Some(Ok(_)) ==> run@.outcome() == Some(Ok::<(), RuntimeErrorView>(())),
        outcome matches Some(Err(e)) ==> run@.outcome() == Some(Err::<(), RuntimeErrorView>(e@)),
        act@ == edit@.action(),
        end is None <==> !(edit@.stage is Done),
        end matches Some(Ok(_)) ==> edit@.stage == StageView::Done(Ok(())),
        end matches Some(Err(e)) ==> edit@.stage == StageView::Done(Err(e@)),
        doing@ == assignment@.action(),
        result is None <==> !(assignment@.stage is Done),
        result matches Some(Ok(_)) ==> assignment@.stage == AssignStageView::Done(Ok(())),
        result matches Some(Err(e)) ==> assignment@.stage == AssignStageView::Done(Err(e@)),
        attempt@.first == Ok::<Seq<char>, RuntimeErrorView>(command@),
        attempt@.fallback is None,
{
}

/// Errors are told in their words, and a missing server is known by them.
pub proof fn errors_are_put_in_words(
    refused: RuntimeError,
    words: String,
    missing: bool,
    error: ConfigError,
    text: String,
    failed: Error,
    message: String,
)
    requires
        call_ensures(RuntimeError::message, (&refused,), words),
        call_ensures(RuntimeError::says_no_such_server, (&refused,), missing),
        call_ensures(ConfigError::message, (&error,), text),
        call_ensures(Error::message, (&failed,), message),
    ensures
        words@ == refused@.text(),
        missing <==> text::has_part(refused@.text(), "No such server"@),
        text@ == error@.text(),
        message@ == failed@.text(),
{
}

/// Every line that opens the backend of a service has that backend listed.
pub proof fn opened_backends_are_listed(all: Seq<Seq<char>>, n: nat, i: int, name: Seq<char>) -> (k:
    int)
    requires
        0 <= i < n <= all.len(),
        text::trimmed(all[i]) == "backend svc_"@ + name,
    ensures
        0 <= k < config::backends_in(all, n).len(),
        config::backends_in(all, n)[k] == "svc_"@ + name,
    decreases n,
{
    listed_backends_are_in_the_file(all[n - 1], name, all, n);
    let fewer = config::backends_in(all, (n - 1) as nat);
    if i < n - 1 {
        let k = opened_backends_are_listed(all, (n - 1) as nat, i, name);
        assert(config::backends_in(all, n)[k] == fewer[k]);
        k
    } else {
        fewer.len() as int
    }
}

/// Every backend that is listed is opened by a line of the file.
pub proof fn listed_backends_are_opened(all: Seq<Seq<char>>, n: nat, k: int) -> (i: int)
    requires
        n <= all.len(),
        0 <= k < config::backends_in(all, n).len(),
    ensures
        0 <= i < n,
        "backend svc_"@.is_prefix_of(text::trimmed(all[i])),
        text::trimmed(all[i]) == "backend "@ + config::backends_in(all, n)[k],
    decreases n,
{
    let fewer = config::backends_in(all, (n - 1) as nat);
    if k < fewer.len() {
        assert(config::backends_in(all, n)[k] == fewer[k]);
        listed_backends_are_opened(all, (n - 1) as nat, k)
    } else {
        reveal_strlit("backend svc_");
        reveal_strlit("backend ");
        let bare = text::trimmed(all[n - 1]);
        assert("backend svc_"@.is_prefix_of(bare));
        assert(bare.take(8) =~= "backend "@);
        assert(bare =~= "backend "@ + bare.skip(8));
        n - 1
    }
}

/// Lists of backends are given back as they are in the file; a file that cannot be read is
/// answered with the reason.
pub proof fn backends_are_given_back(
    content: &str,
    names: Vec<String>,
    read: Result<String, ConfigError>,
    listed: Result<Vec<String>, Error>,
    i: int,
)
    requires
        call_ensures(config::list_services, (content,), names),
        call_ensures(haproxy::list_services, (read,), listed),
    ensures
        names@.len() == config::backends_of(content@).len(),
        0 <= i < names@.len() ==> names@[i]@ == config::backends_of(content@)[i],
        listed is Ok <==> read is Ok,
        read matches Ok(c) ==> listed->Ok_0@.len() == config::backends_of(c@).len(),
        read matches Ok(c) ==> 0 <= i < listed->Ok_0@.len() ==> listed->Ok_0@[i]@
            == config::backends_of(c@)[i],
        read matches Err(e) ==> listed->Err_0 == Error::Config(e),
{
    let shown = text::texts(names@);
    assert(shown.len() == names@.len());
    if 0 <= i < names@.len() {
        assert(shown[i] == names@[i]@);
    }
    if listed is Ok {
        let more = text::texts(listed->Ok_0@);
        assert(more.len() == listed->Ok_0@.len());
        if 0 <= i < listed->Ok_0@.len() {
            assert(more[i] == listed->Ok_0@[i]@);
        }
    }
}

} // verus!
