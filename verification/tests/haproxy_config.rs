use openshard::haproxy::config::{
    acl_lines, acl_marker, backend_block, backend_header, delete_service, insert_service,
    list_services, service_exists, ConfigError,
};
use openshard::haproxy::edit::{
    add_service, pid_unreadable, reload_target, remove_service, signal_failed, validation_outcome,
    Action, ConfigEdit, Event,
};

const SAMPLE_CFG: &str = "\
global
    daemon

defaults
    mode http

frontend openshrd
    bind *:80
    default_backend volunteers

backend volunteers
    balance leastconn
";

const CFG_WITH_SVC: &str = "\
global
    daemon

defaults
    mode http

frontend openshrd
    bind *:80
    acl host_svc_foo hdr(host) -i foo.example.com
    use_backend svc_foo if host_svc_foo
    default_backend volunteers

backend volunteers
    balance leastconn

backend svc_foo
    balance leastconn
    option httpchk GET /health
    http-check expect status 200
";

#[test]
fn service_exists_detects_present() {
    assert!(service_exists(CFG_WITH_SVC, "svc_foo"));
}

#[test]
fn service_exists_detects_absent() {
    assert!(!service_exists(SAMPLE_CFG, "svc_foo"));
    assert!(!service_exists(CFG_WITH_SVC, "svc_bar"));
}

#[test]
fn service_exists_needs_the_whole_name() {
    assert!(!service_exists(CFG_WITH_SVC, "svc_fo"));
    assert!(!service_exists(CFG_WITH_SVC, "svc_foo "));
    assert!(service_exists("\tacl host_a hdr(host) -i a.b\r\n", "a"));
}

#[test]
fn texts_of_a_service() {
    assert_eq!(
        backend_block("svc_a"),
        "\nbackend svc_a\n    balance leastconn\n    option http-server-close\n    option httpchk GET /\n    http-check expect rstatus 2[0-9][0-9]\n    http-response set-header X-Served-By %[srv_name]\n"
    );
    let pair = acl_lines("svc_a", "a.example.com");
    assert_eq!(pair[0], "    acl host_svc_a hdr(host) -i a.example.com");
    assert_eq!(pair[1], "    use_backend svc_a if host_svc_a");
    assert_eq!(acl_marker("svc_a"), "acl host_svc_a ");
    assert_eq!(backend_header("svc_a"), "backend svc_a");
}

#[test]
fn insertion_goes_before_the_first_rule() {
    let added = insert_service(SAMPLE_CFG, "svc_a", "a.example.com").unwrap();
    let expected = "\
global
    daemon

defaults
    mode http

frontend openshrd
    bind *:80
    acl host_svc_a hdr(host) -i a.example.com
    use_backend svc_a if host_svc_a
    default_backend volunteers

backend volunteers
    balance leastconn

backend svc_a
    balance leastconn
    option http-server-close
    option httpchk GET /
    http-check expect rstatus 2[0-9][0-9]
    http-response set-header X-Served-By %[srv_name]
";
    assert_eq!(added, expected);
}

#[test]
fn insertion_needs_a_rule() {
    let refused = insert_service("frontend x\n    bind *:80\n", "svc_a", "a.example.com");
    assert!(matches!(refused, Err(ConfigError::FrontendNotFound)));
}

#[test]
fn added_service_exists_and_is_listed_last() {
    let added = insert_service(CFG_WITH_SVC, "svc_a", "a.example.com").unwrap();
    assert!(service_exists(&added, "svc_a"));
    assert!(service_exists(&added, "svc_foo"));
    assert_eq!(list_services(CFG_WITH_SVC), vec!["svc_foo".to_string()]);
    assert_eq!(list_services(&added), vec!["svc_foo".to_string(), "svc_a".to_string()]);
}

#[test]
fn removing_what_was_added_gives_the_text_back() {
    let added = insert_service(CFG_WITH_SVC, "svc_a", "a.example.com").unwrap();
    assert_eq!(delete_service(&added, "svc_a"), CFG_WITH_SVC);
}

#[test]
fn removed_service_is_gone_and_others_stay() {
    let added = insert_service(CFG_WITH_SVC, "svc_a", "a.example.com").unwrap();
    let removed = delete_service(&added, "svc_foo");
    assert!(!service_exists(&removed, "svc_foo"));
    assert!(service_exists(&removed, "svc_a"));
    assert_eq!(list_services(&removed), vec!["svc_a".to_string()]);
    assert_eq!(delete_service(&removed, "svc_foo"), removed);
}

#[test]
fn removal_goes_by_the_line_whatever_its_indent() {
    let removed = "frontend f\n  default_backend v\n";
    for indent in ["  ", "\t", "", "    "] {
        let text = format!(
            "frontend f\n{indent}acl host_svc_a hdr(host) -i a.io\n\
             {indent}use_backend svc_a if host_svc_a\n  default_backend v\n\n\
             backend svc_a\n  balance leastconn\n"
        );
        assert!(service_exists(&text, "svc_a"));
        assert_eq!(delete_service(&text, "svc_a"), removed);
        let edit = remove_service("svc_a").resume(Event::Read(Ok(text)));
        assert_eq!(written(&edit), removed);
    }
    assert!(!service_exists(removed, "svc_a"));
    let again = remove_service("svc_a").resume(Event::Read(Ok(removed.to_string())));
    assert!(matches!(again.outcome(), Some(Ok(()))));
}

#[test]
fn removal_keeps_lines_of_longer_names() {
    let text = "frontend f\n\tuse_backend svc_ab if host_svc_ab\n\tacl host_svc_ab hdr(host) -i b.io";
    assert_eq!(delete_service(text, "svc_a"), text);
}

#[test]
fn removal_keeps_sections_behind_the_backend() {
    let text = "backend svc_a\n    server x\n\nbackend b\n    server y";
    assert_eq!(delete_service(text, "svc_a"), "backend b\n    server y");
}

fn is_read(edit: &ConfigEdit) -> bool {
    matches!(edit.action(), Action::Read)
}

fn written(edit: &ConfigEdit) -> String {
    match edit.action() {
        Action::Write(text) => text,
        _ => panic!("no text is to be written"),
    }
}

#[test]
fn adding_runs_to_its_end() {
    let edit = add_service("svc_a", "a.example.com");
    assert!(is_read(&edit));
    let edit = edit.resume(Event::Read(Ok(SAMPLE_CFG.to_string())));
    assert_eq!(written(&edit), insert_service(SAMPLE_CFG, "svc_a", "a.example.com").unwrap());
    let edit = edit.resume(Event::Wrote(Ok(())));
    assert!(matches!(edit.action(), Action::Validate));
    let edit = edit.resume(Event::Validated(Ok(())));
    assert!(matches!(edit.action(), Action::Reload));
    let edit = edit.resume(Event::Reloaded(Ok(())));
    assert!(matches!(edit.action(), Action::Sleep(750)));
    assert!(!edit.is_done());
    let edit = edit.resume(Event::Slept);
    assert!(matches!(edit.action(), Action::Finish));
    assert!(matches!(edit.outcome(), Some(Ok(()))));
}

#[test]
fn adding_again_writes_nothing() {
    let edit = add_service("svc_foo", "foo.example.com")
        .resume(Event::Read(Ok(CFG_WITH_SVC.to_string())));
    assert!(edit.is_done());
    assert!(matches!(edit.outcome(), Some(Ok(()))));
}

#[test]
fn removing_what_is_not_there_writes_nothing() {
    let edit = remove_service("svc_foo").resume(Event::Read(Ok(SAMPLE_CFG.to_string())));
    assert!(matches!(edit.outcome(), Some(Ok(()))));
}

#[test]
fn rejected_text_is_replaced_by_the_old_one() {
    let edit = remove_service("svc_foo").resume(Event::Read(Ok(CFG_WITH_SVC.to_string())));
    assert_eq!(written(&edit), delete_service(CFG_WITH_SVC, "svc_foo"));
    let edit = edit.resume(Event::Wrote(Ok(())));
    let edit = edit.resume(Event::Validated(validation_outcome(false, " bad line \n")));
    assert_eq!(written(&edit), CFG_WITH_SVC);
    let edit = edit.resume(Event::Wrote(Ok(())));
    match edit.outcome() {
        Some(Err(e)) => assert_eq!(e.message(), "haproxy config validation failed: bad line"),
        _ => panic!("the edit must fail"),
    }
}

#[test]
fn edit_errors_in_words() {
    let edit = add_service("a", "b").resume(Event::Read(Err("gone".to_string())));
    assert_eq!(edit.outcome().unwrap().unwrap_err().message(), "io error: gone");
    let edit = add_service("a", "b").resume(Event::Read(Ok("nothing".to_string())));
    assert_eq!(
        edit.outcome().unwrap().unwrap_err().message(),
        "frontend section not found in haproxy config — cannot insert ACL"
    );
    assert_eq!(
        pid_unreadable("/run/p", "no such file").message(),
        "haproxy reload failed: cannot read PID file /run/p: no such file"
    );
    assert_eq!(signal_failed(12, "denied").message(), "haproxy reload failed: kill -USR2 12: denied");
}

#[test]
fn edit_failures_on_the_way() {
    let start = || add_service("svc_a", "d").resume(Event::Read(Ok(SAMPLE_CFG.to_string())));
    let unwritten = start().resume(Event::Wrote(Err("full".to_string())));
    assert_eq!(unwritten.outcome().unwrap().unwrap_err().message(), "io error: full");
    let unreloaded = start()
        .resume(Event::Wrote(Ok(())))
        .resume(Event::Validated(validation_outcome(true, "")))
        .resume(Event::Reloaded(Err(signal_failed(1, "x"))));
    assert!(matches!(unreloaded.outcome(), Some(Err(ConfigError::ReloadFailed(_)))));
    let unrestored = start()
        .resume(Event::Wrote(Ok(())))
        .resume(Event::Validated(validation_outcome(false, "bad")))
        .resume(Event::Wrote(Err("full".to_string())));
    assert_eq!(unrestored.outcome().unwrap().unwrap_err().message(), "io error: full");
    assert!(start().resume(Event::Slept).outcome().is_none());
}

#[test]
fn pid_texts() {
    assert_eq!(reload_target("/p", " 123\n").unwrap(), 123);
    assert_eq!(reload_target("/p", "+7").unwrap(), 7);
    assert_eq!(reload_target("/p", "4294967295").unwrap(), 4294967295);
    for bad in ["", "x", "-1", "4294967296", "1 2", "+"] {
        assert!(reload_target("/p", bad).is_err());
    }
    assert_eq!(
        reload_target("/p", " x\n").unwrap_err().message(),
        "haproxy reload failed: invalid PID in /p: x"
    );
}
