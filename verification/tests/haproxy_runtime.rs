use openshard::haproxy::assign::{assign_service, AssignAction, AssignEvent, Assignment};
use openshard::haproxy::config::ConfigError;
use openshard::haproxy::edit::{Action, Event};
use openshard::haproxy::run::RuntimeRun;
use openshard::haproxy::runtime::{classify_response, command_line, RuntimeError};
use openshard::haproxy::{
    add_volunteer, ensure_service, ensure_service_config, list_services, register_service,
    remove_volunteer, restore_service_server, server_name_for, set_weight, unregister_service,
    update_volunteer_addr, upsert_volunteer, Error,
};

const ID: u128 = 0x67e5504410b1426f9247bb680e5fe0c8;
const NAME: &str = "67e5504410b1426f9247bb680e5fe0c8";

/// All commands of a run whose commands all succeed.
fn commands(run: RuntimeRun) -> Vec<String> {
    let mut run = run;
    let mut sent = Vec::new();
    while let Some(command) = run.command() {
        sent.push(command);
        run = run.resume(Ok(String::new()));
    }
    assert!(matches!(run.outcome(), Some(Ok(()))));
    sent
}

fn no_such_server() -> RuntimeError {
    RuntimeError::Response("No such server.".to_string())
}

#[test]
fn server_names_have_no_hyphens() {
    assert_eq!(server_name_for(ID), NAME);
    assert_eq!(server_name_for(0xf), "0000000000000000000000000000000f");
    assert_ne!(server_name_for(1), server_name_for(2));
}

#[test]
fn adding_a_volunteer() {
    assert_eq!(
        commands(add_volunteer("volunteers", ID, "10.0.0.1:30000", 7)),
        vec![
            format!("add server volunteers/{} 10.0.0.1:30000", NAME),
            format!("set weight volunteers/{} 7", NAME),
            format!("set server volunteers/{} state ready", NAME),
        ]
    );
}

#[test]
fn removing_a_volunteer() {
    assert_eq!(
        commands(remove_volunteer("volunteers", ID)),
        vec![
            format!("set server volunteers/{} state maint", NAME),
            format!("del server volunteers/{}", NAME),
        ]
    );
}

#[test]
fn upserting_moves_a_server_that_is_there() {
    assert_eq!(
        commands(upsert_volunteer("volunteers", ID, "::1:30000", 100)),
        vec![
            format!("set server volunteers/{} addr ::1 port 30000", NAME),
            format!("set weight volunteers/{} 100", NAME),
            format!("set server volunteers/{} state ready", NAME),
        ]
    );
}

#[test]
fn upserting_adds_a_server_that_is_not_there() {
    let run = upsert_volunteer("volunteers", ID, "1.2.3.4:5", 9).resume(Err(no_such_server()));
    assert_eq!(
        commands(run),
        vec![
            format!("add server volunteers/{} 1.2.3.4:5", NAME),
            format!("set weight volunteers/{} 9", NAME),
            format!("set server volunteers/{} state ready", NAME),
        ]
    );
}

#[test]
fn runs_stop_at_the_first_error() {
    let run = upsert_volunteer("volunteers", ID, "1.2.3.4:5", 9)
        .resume(Err(RuntimeError::Response("Can't do that".to_string())));
    assert!(run.command().is_none());
    assert_eq!(
        run.outcome().unwrap().unwrap_err().message(),
        "haproxy returned an error response: Can't do that"
    );
    let again = run.resume(Ok(String::new()));
    assert!(again.command().is_none());
    let twice = upsert_volunteer("volunteers", ID, "1.2.3.4:5", 9)
        .resume(Err(no_such_server()))
        .resume(Err(no_such_server()));
    assert!(matches!(twice.outcome(), Some(Err(RuntimeError::Response(_)))));
}

#[test]
fn addresses_need_a_port() {
    let run = upsert_volunteer("volunteers", ID, "nowhere", 9);
    assert!(run.command().is_none());
    assert_eq!(
        run.outcome().unwrap().unwrap_err().message(),
        "haproxy returned an error response: invalid addr (expected ip:port): nowhere"
    );
    let moved = update_volunteer_addr(ID, "nowhere", None);
    assert_eq!(moved.command().unwrap(), format!("set server volunteers/{} state maint", NAME));
    assert!(moved.resume(Ok(String::new())).outcome().unwrap().is_err());
}

#[test]
fn setting_a_weight() {
    assert_eq!(
        commands(set_weight("volunteers", ID, 42)),
        vec![format!("set weight volunteers/{} 42", NAME)]
    );
}

#[test]
fn moving_a_volunteer_with_its_service() {
    let service = Some(("blog".to_string(), "127.0.0.1:30002".to_string()));
    assert_eq!(
        commands(update_volunteer_addr(ID, "10.0.0.1:30002", service)),
        vec![
            format!("set server volunteers/{} state maint", NAME),
            format!("set server volunteers/{} addr 10.0.0.1 port 30002", NAME),
            format!("set server volunteers/{} state ready", NAME),
            "set server svc_blog/primary state maint".to_string(),
            "set server svc_blog/primary addr 127.0.0.1 port 30002".to_string(),
            "set server svc_blog/primary state ready".to_string(),
        ]
    );
}

#[test]
fn restoring_the_server_of_a_service() {
    assert_eq!(
        commands(restore_service_server("blog", ID, "127.0.0.1:30002")),
        vec![
            "set server svc_blog/primary addr 127.0.0.1 port 30002".to_string(),
            "set weight svc_blog/primary 100".to_string(),
            "set server svc_blog/primary state ready".to_string(),
        ]
    );
}

#[test]
fn answers_of_the_proxy() {
    assert_eq!(classify_response(" done \n").unwrap(), "done");
    assert_eq!(classify_response("").unwrap(), "");
    for bad in ["Can't find", "No such server.", "Unknown command", "Invalid x", "Alert!", "error: y"] {
        assert!(matches!(classify_response(bad), Err(RuntimeError::Response(_))));
    }
    assert!(classify_response("an error").is_ok());
    assert_eq!(command_line("show stat"), "show stat\n");
}

#[test]
fn runtime_errors_in_words() {
    assert_eq!(RuntimeError::Io("x".to_string()).message(), "io error: x");
    assert_eq!(
        RuntimeError::Unsupported.message(),
        "unix sockets are not supported on this platform"
    );
    assert_eq!(
        Error::from(RuntimeError::Io("x".to_string())).message(),
        "runtime API error: io error: x"
    );
    assert_eq!(
        Error::from(ConfigError::Io("x".to_string())).message(),
        "config error: io error: x"
    );
    assert_eq!(Error::Subdomain("x".to_string()).message(), "subdomain error: x");
}

#[test]
fn edits_of_services_name_their_backends() {
    let text = "frontend f\n    default_backend volunteers\n".to_string();
    let written = |edit: openshard::haproxy::edit::ConfigEdit| {
        match edit.resume(Event::Read(Ok(text.clone()))).action() {
            Action::Write(after) => after,
            _ => panic!("no text is to be written"),
        }
    };
    assert!(written(ensure_service_config("blog", "b.org")).contains("backend svc_blog\n"));
    assert!(written(register_service("blog", "b.org")).contains("backend blog\n"));
    assert!(written(ensure_service("blog", "b.org")).contains("backend blog\n"));
    let gone = unregister_service("blog").resume(Event::Read(Ok(text.clone())));
    assert!(gone.is_done());
    assert_eq!(
        list_services(Ok(written(ensure_service_config("blog", "b.org")))).unwrap(),
        vec!["svc_blog".to_string()]
    );
    assert!(list_services(Err(ConfigError::FrontendNotFound)).is_err());
}

fn after_config(assignment: Assignment) -> Assignment {
    let text = "frontend f\n    default_backend volunteers\n".to_string();
    assignment
        .resume(AssignEvent::Config(Event::Read(Ok(text))))
        .resume(AssignEvent::Config(Event::Wrote(Ok(()))))
        .resume(AssignEvent::Config(Event::Validated(Ok(()))))
        .resume(AssignEvent::Config(Event::Reloaded(Ok(()))))
        .resume(AssignEvent::Config(Event::Slept))
}

#[test]
fn assigning_a_service() {
    let start = assign_service("blog", "b.org", ID, "127.0.0.1:30000");
    assert!(matches!(start.action(), AssignAction::Config(Action::Read)));
    let waiting = after_config(start);
    assert!(matches!(waiting.action(), AssignAction::Sleep(500)));
    let mut now = waiting.resume(AssignEvent::Slept);
    let mut sent = Vec::new();
    while let AssignAction::Send(command) = now.action() {
        sent.push(command);
        now = now.resume(AssignEvent::Answered(Ok(String::new())));
    }
    assert_eq!(
        sent,
        vec![
            "set server svc_blog/primary addr 127.0.0.1 port 30000".to_string(),
            "set weight svc_blog/primary 100".to_string(),
            "set server svc_blog/primary state ready".to_string(),
        ]
    );
    assert!(matches!(now.action(), AssignAction::Finish));
    assert!(matches!(now.outcome(), Some(Ok(()))));
}

#[test]
fn assigning_fails_with_its_parts() {
    let failed = assign_service("blog", "b.org", ID, "127.0.0.1:30000")
        .resume(AssignEvent::Config(Event::Read(Err("gone".to_string()))));
    assert!(matches!(failed.outcome(), Some(Err(Error::Config(_)))));
    let failed = after_config(assign_service("blog", "b.org", ID, "nowhere"))
        .resume(AssignEvent::Slept);
    assert!(matches!(failed.outcome(), Some(Err(Error::Runtime(_)))));
    let early = assign_service("blog", "b.org", ID, "a:1").resume(AssignEvent::Slept);
    assert!(matches!(early.action(), AssignAction::Config(Action::Read)));
    assert!(early.outcome().is_none());
}
