use openshard::clock::Timestamp;
use openshard::haproxy::assign::AssignAction;
use openshard::haproxy::config::ConfigError;
use openshard::haproxy::edit::{Action, Event};
use openshard::haproxy::runtime::RuntimeError;
use openshard::haproxy::Error;
use openshard::registrar::churn::{dead_volunteers, dead_volunteers_at, evict, CHECK_INTERVAL_SECS};
use openshard::registrar::db::{find_by_hostname, to_assignment_row, to_row};
use openshard::registrar::dispatch::{dispatch, dispatch_at, Forwarded};
use openshard::registrar::enrollment::{
    disconnect, enroll, enroll_with, finish_enrollment, heartbeat, heartbeat_answer, heartbeat_at,
    known_node, leave, list_volunteers, tunnel_service_addr, unknown_volunteer, Departure, EnrollRequest, Enrolled,
    HeartbeatRequest, KnownNode, RecordChange,
};
use openshard::registrar::services::{
    best_free, finish_registration, list_services, register_service, register_service_at,
    settle_registration, tunnel_addr_for, RegisterAnswer, RegisterServiceRequest, Registration,
};
use openshard::registrar::state::{
    request_pressure, AppState, HandshakeInfo, Metrics, VolunteerState, HEARTBEAT_INTERVAL_SECS,
    HEARTBEAT_TIMEOUT_SECS,
};

fn at(secs: i64) -> Timestamp {
    Timestamp::new(secs, 0).unwrap()
}

fn info(hostname: &str) -> HandshakeInfo {
    HandshakeInfo {
        hostname: hostname.to_string(),
        os: "linux".to_string(),
        arch: "x86_64".to_string(),
        cpu_cores: 4,
        cpu_model: "cpu".to_string(),
        memory_total_mb: 8192,
        disk_free_gb: 100,
        docker_version: "27".to_string(),
        tunnel_version: "1".to_string(),
        service_addr: "unset".to_string(),
    }
}

fn request(hostname: &str, port: u16) -> EnrollRequest {
    EnrollRequest { info: info(hostname), tunnel_public_port: port }
}

fn metrics(score: i64) -> Metrics {
    Metrics { cpu_pct: 1, mem_pct: 2, load_avg: 3, active_requests: 4, score }
}

fn service(name: &str) -> RegisterServiceRequest {
    RegisterServiceRequest {
        name: name.to_string(),
        domain: format!("{}.org", name),
        image: format!("img/{}", name),
        port: 8000,
    }
}

/// Enrolls a volunteer under an identifier; a service that is offered goes to it.
fn join(state: &mut AppState, hostname: &str, id: u128, now: Timestamp) -> Enrolled {
    let enrollment =
        enroll_with(state, request(hostname, 30000), None, "10.0.0.1:30000".to_string(), id, now);
    finish_enrollment(state, enrollment, true)
}

fn beat(state: &mut AppState, id: u128, score: i64, now: Timestamp) {
    let request = HeartbeatRequest {
        volunteer_id: id,
        metrics: metrics(score),
        service_running: None,
        service_image: None,
    };
    assert!(heartbeat_at(state, request, now).is_some());
}

#[test]
fn weights_are_clamped() {
    assert_eq!(metrics(50).weight(), 50);
    assert_eq!(metrics(1).weight(), 1);
    assert_eq!(metrics(0).weight(), 1);
    assert_eq!(metrics(-7).weight(), 1);
    assert_eq!(metrics(100).weight(), 100);
    assert_eq!(metrics(101).weight(), 100);
    assert_eq!(Metrics::idle().weight(), 100);
}

#[test]
fn pressure_is_capped() {
    assert_eq!(request_pressure(0), 0);
    assert_eq!(request_pressure(19), 19);
    assert_eq!(request_pressure(20), 20);
    assert_eq!(request_pressure(21), 20);
    assert_eq!(request_pressure(u32::MAX), 20);
}

#[test]
fn volunteers_die_after_three_missed_heartbeats() {
    let mut state = AppState::new();
    let v = join(&mut state, "a", 1, at(1000)).volunteer;
    assert_eq!(HEARTBEAT_TIMEOUT_SECS, 45);
    assert!(v.is_alive_at(&at(1044)));
    assert!(v.is_alive_at(&Timestamp::new(1044, 999_999_999).unwrap()));
    assert!(!v.is_alive_at(&at(1045)));
    assert!(v.is_alive_at(&at(900)));
    assert!(!v.is_alive());
}

#[test]
fn addresses_of_volunteers() {
    assert_eq!(tunnel_service_addr(Some("10.1.2.3".to_string()), "tunnel", 30000), "10.1.2.3:30000");
    assert_eq!(tunnel_service_addr(None, "tunnel", 0), "tunnel:0");
    assert_eq!(tunnel_addr_for("10.1.2.3:30000"), "10.1.2.3:30000");
}

#[test]
fn new_volunteers_get_an_identifier() {
    let mut state = AppState::new();
    let done = join(&mut state, "a", 0x67e5504410b1426f9247bb680e5fe0c8, at(10));
    assert_eq!(done.response.volunteer_id, "67e55044-10b1-426f-9247-bb680e5fe0c8");
    assert_eq!(done.response.heartbeat_interval_seconds, HEARTBEAT_INTERVAL_SECS);
    assert!(done.response.assignment.is_none());
    assert_eq!(done.record, RecordChange::Keep);
    assert_eq!(done.active_count, 1);
    assert_eq!(done.volunteer.info.hostname, "a");
    assert_eq!(done.volunteer.info.service_addr, "10.0.0.1:30000");
    assert_eq!(done.volunteer.metrics, Metrics::idle());
    assert_eq!(
        done.join().command().unwrap(),
        "set server volunteers/67e5504410b1426f9247bb680e5fe0c8 addr 10.0.0.1 port 30000"
    );
}

#[test]
fn identifiers_of_new_volunteers_are_random() {
    let mut state = AppState::new();
    let mut seen = Vec::new();
    for name in ["a", "b", "c"] {
        let enrollment = enroll(&mut state, request(name, 1), None, "h:1".to_string());
        let done = finish_enrollment(&mut state, enrollment, false);
        assert_eq!((done.volunteer.id >> 76) & 0xf, 4);
        assert_eq!((done.volunteer.id >> 62) & 3, 2);
        assert!(done.volunteer.is_alive());
        assert!(!seen.contains(&done.volunteer.id));
        seen.push(done.volunteer.id);
    }
    assert_eq!(list_volunteers(&state).len(), 3);
    assert!(dead_volunteers(&state).is_empty());
}

#[test]
fn volunteers_are_known_again() {
    let mut state = AppState::new();
    join(&mut state, "a", 1, at(10));
    assert!(matches!(register_service_at(&mut state, &service("blog"), at(11)), Registration::Assigning { .. }));
    finish_registration(&mut state, &service("blog"), 1, at(12));
    let again = join(&mut state, "a", 2, at(20));
    assert_eq!(again.volunteer.id, 1);
    assert_eq!(again.active_count, 1);
    assert_eq!(again.record, RecordChange::Store);
    let assigned = again.volunteer.assigned_service.unwrap();
    assert_eq!(assigned.service_name, "blog");
    assert_eq!(assigned.assigned_at, at(12));
    let payload = again.response.assignment.unwrap();
    assert_eq!(payload.image, "img/blog");
    assert_eq!(payload.service_port, 8000);
}

#[test]
fn volunteers_on_record_are_known_again() {
    let mut state = AppState::new();
    let known = Some(KnownNode { id: 77, assignment: None });
    let enrollment = enroll_with(&mut state, request("a", 1), known, "h:1".to_string(), 5, at(1));
    assert_eq!(finish_enrollment(&mut state, enrollment, false).volunteer.id, 77);
    assert!(known_node(&state, "a").is_some());
    assert!(known_node(&state, "b").is_none());
    let other = Some(KnownNode { id: 78, assignment: None });
    let enrollment = enroll_with(&mut state, request("a", 1), other, "h:1".to_string(), 6, at(2));
    assert_eq!(finish_enrollment(&mut state, enrollment, false).volunteer.id, 77);
}

#[test]
fn second_enrollments_get_the_first_identifier() {
    let mut state = AppState::new();
    let first = join(&mut state, "a", 1, at(10));
    join(&mut state, "b", 2, at(10));
    finish_registration(&mut state, &service("blog"), 1, at(12));
    finish_registration(&mut state, &service("wiki"), 2, at(12));
    assert!(matches!(register_service_at(&mut state, &service("next"), at(13)), Registration::Queued(_)));
    let second = join(&mut state, "a", 7, at(20));
    assert_eq!(second.response.volunteer_id, first.response.volunteer_id);
    assert_eq!(second.response.assignment.unwrap().image, "img/blog");
    assert_eq!(second.active_count, 2);
    assert_eq!(state.pending_count(), 1);
}

#[test]
fn second_enrollments_are_known_from_the_record() {
    let mut state = AppState::new();
    let first = join(&mut state, "a", 0x51, at(10));
    let done = finish_registration(&mut state, &service("blog"), 0x51, at(12));
    let row = to_row(&first.volunteer);
    let assignments = vec![to_assignment_row(0x51, &done.assignment)];
    let known = find_by_hostname(&vec![to_row(&first.volunteer)], &assignments, "a");
    let mut state = AppState::new();
    register_service_at(&mut state, &service("next"), at(13));
    let enrollment = enroll_with(&mut state, request("a", 1), known, "h:1".to_string(), 9, at(20));
    let second = finish_enrollment(&mut state, enrollment, true);
    assert_eq!(second.response.volunteer_id, first.response.volunteer_id);
    assert_eq!(to_row(&second.volunteer).id, row.id);
    assert_eq!(second.response.assignment.unwrap().image, "img/blog");
    assert_eq!(state.pending_count(), 1);
}

#[test]
fn queued_services_go_to_new_volunteers() {
    let mut state = AppState::new();
    for name in ["one", "two"] {
        assert!(matches!(register_service_at(&mut state, &service(name), at(1)), Registration::Queued(_)));
    }
    assert_eq!(state.pending_count(), 2);
    let enrollment = enroll_with(&mut state, request("a", 30007), None, "h:1".to_string(), 1, at(5));
    let assignment = enrollment.assignment().unwrap();
    assert!(matches!(assignment.action(), AssignAction::Config(Action::Read)));
    let text = "frontend f\n    default_backend v\n".to_string();
    let next = assignment.resume(openshard::haproxy::assign::AssignEvent::Config(Event::Read(Ok(text))));
    match next.action() {
        AssignAction::Config(Action::Write(after)) => {
            assert!(after.contains("    acl host_svc_one hdr(host) -i one.org"))
        }
        _ => panic!("the configuration must change"),
    }
    let done = finish_enrollment(&mut state, enrollment, true);
    assert_eq!(done.record, RecordChange::Store);
    let assigned = done.volunteer.assigned_service.unwrap();
    assert_eq!(assigned.service_name, "one");
    assert_eq!(assigned.assigned_at, at(5));
    assert_eq!(state.pending_count(), 1);
    assert_eq!(join(&mut state, "b", 2, at(6)).volunteer.assigned_service.unwrap().service_name, "two");
    assert!(join(&mut state, "c", 3, at(6)).volunteer.assigned_service.is_none());
}

#[test]
fn refused_services_are_next_again() {
    let mut state = AppState::new();
    for name in ["one", "two"] {
        register_service_at(&mut state, &service(name), at(1));
    }
    let enrollment = enroll_with(&mut state, request("a", 1), None, "h:1".to_string(), 1, at(5));
    let done = finish_enrollment(&mut state, enrollment, false);
    assert!(done.response.assignment.is_none());
    assert_eq!(done.record, RecordChange::Keep);
    assert_eq!(state.pending_count(), 2);
    let next = state.next_service().unwrap();
    assert_eq!(next.name, "one");
    assert_eq!(next.registered_at, at(1));
}

#[test]
fn refused_prior_service_waits() {
    let mut state = AppState::new();
    join(&mut state, "a", 1, at(10));
    finish_registration(&mut state, &service("blog"), 1, at(12));
    let enrollment = enroll_with(&mut state, request("a", 1), None, "h:1".to_string(), 9, at(20));
    let done = finish_enrollment(&mut state, enrollment, false);
    assert_eq!(done.record, RecordChange::Drop);
    assert!(done.volunteer.assigned_service.is_none());
    let next = state.next_service().unwrap();
    assert_eq!(next.name, "blog");
    assert_eq!(next.registered_at, at(20));
}

#[test]
fn heartbeats_update_volunteers() {
    let mut state = AppState::new();
    join(&mut state, "a", 1, at(10));
    let known = heartbeat_at(
        &mut state,
        HeartbeatRequest {
            volunteer_id: 1,
            metrics: metrics(33),
            service_running: Some(true),
            service_image: Some("img".to_string()),
        },
        at(20),
    )
    .unwrap();
    assert_eq!(known.weight, 33);
    assert_eq!(known.volunteer.last_heartbeat, at(20));
    assert!(known.assignment().is_none());
    beat(&mut state, 1, 34, at(30));
    let v = state.volunteer(1).unwrap();
    assert_eq!(v.metrics.weight(), 34);
    assert_eq!(v.service_running, Some(true));
    assert_eq!(v.service_image, Some("img".to_string()));
    assert_eq!(v.enrolled_at, at(10));
}

#[test]
fn heartbeats_carry_the_assignment() {
    let mut state = AppState::new();
    join(&mut state, "a", 1, at(10));
    finish_registration(&mut state, &service("blog"), 1, at(12));
    let request = HeartbeatRequest {
        volunteer_id: 1,
        metrics: metrics(5),
        service_running: None,
        service_image: None,
    };
    let known = heartbeat(&mut state, request).unwrap();
    assert!(known.volunteer.is_alive());
    let payload = known.assignment().unwrap();
    assert_eq!(payload.image, "img/blog");
    assert_eq!(payload.service_port, 8000);
}

#[test]
fn heartbeats_of_strangers_are_refused() {
    let mut state = AppState::new();
    let request = HeartbeatRequest {
        volunteer_id: 1,
        metrics: metrics(5),
        service_running: None,
        service_image: None,
    };
    assert!(heartbeat_at(&mut state, request, at(1)).is_none());
    assert_eq!(state.volunteer_count(), 0);
    let answer = unknown_volunteer();
    assert_eq!(answer.error, "Volunteer not found");
    assert_eq!(answer.code, "VOLUNTEER_NOT_FOUND");
}

#[test]
fn lost_servers_are_added_again() {
    let mut state = AppState::new();
    join(&mut state, "a", 1, at(10));
    let request = HeartbeatRequest {
        volunteer_id: 1,
        metrics: metrics(5),
        service_running: None,
        service_image: None,
    };
    let known = heartbeat_at(&mut state, request, at(11)).unwrap();
    assert_eq!(known.weigh().command().unwrap(), "set weight volunteers/00000000000000000000000000000001 5");
    let lost = Error::Runtime(RuntimeError::Response("No such server.".to_string()));
    assert_eq!(
        known.after_weighing_failed(&lost).unwrap().command().unwrap(),
        "add server volunteers/00000000000000000000000000000001 10.0.0.1:30000"
    );
    let other = Error::Runtime(RuntimeError::Unsupported);
    assert!(known.after_weighing_failed(&other).is_none());
}

#[test]
fn volunteers_can_leave() {
    let mut state = AppState::new();
    join(&mut state, "a", 0x67e5504410b1426f9247bb680e5fe0c8, at(10));
    let bad = disconnect(&mut state, "nonsense");
    assert_eq!(bad.status(), 400);
    assert_eq!(bad.error().unwrap().code, "INVALID_ID");
    assert_eq!(bad.error().unwrap().error, "Invalid UUID");
    let stranger = disconnect(&mut state, "00000000-0000-0000-0000-000000000000");
    assert_eq!(stranger.status(), 404);
    assert_eq!(stranger.error().unwrap().code, "VOLUNTEER_NOT_FOUND");
    let gone = disconnect(&mut state, "67E55044-10b1-426f-9247-bb680e5fe0c8");
    assert_eq!(gone.status(), 200);
    assert!(gone.error().is_none());
    assert_eq!(gone.words(), Some("disconnected".to_string()));
    assert_eq!(bad.words(), None);
    match gone {
        Departure::Left { volunteer, active_count } => {
            assert_eq!(volunteer.info.hostname, "a");
            assert_eq!(active_count, 0);
            assert_eq!(
                leave(volunteer.id).command().unwrap(),
                "set server volunteers/67e5504410b1426f9247bb680e5fe0c8 state maint"
            );
        }
        _ => panic!("the volunteer must leave"),
    }
    assert_eq!(state.volunteer_count(), 0);
}

#[test]
fn identifiers_in_all_their_forms() {
    let id = 0x67e5504410b1426f9247bb680e5fe0c8;
    for text in [
        "67e5504410b1426f9247bb680e5fe0c8",
        "67E5504410B1426F9247BB680E5FE0C8",
        "67e55044-10b1-426f-9247-bb680e5fe0c8",
        "{67e55044-10b1-426f-9247-bb680e5fe0c8}",
        "urn:uuid:67e55044-10b1-426f-9247-bb680e5fe0c8",
        "URN:Uuid:67e55044-10b1-426f-9247-bb680e5fe0c8",
    ] {
        let mut state = AppState::new();
        join(&mut state, "a", id, at(10));
        assert_eq!(disconnect(&mut state, text).status(), 200);
    }
    for text in [
        "",
        "67e5504410b1426f9247bb680e5fe0c",
        "67e5504410b1426f9247bb680e5fe0cg",
        "67e55044+10b1-426f-9247-bb680e5fe0c8",
        "(67e55044-10b1-426f-9247-bb680e5fe0c8)",
        "urn_uuid:67e55044-10b1-426f-9247-bb680e5fe0c8",
        "é7e5504410b1426f9247bb680e5fe0c8",
    ] {
        let mut state = AppState::new();
        assert_eq!(disconnect(&mut state, text).status(), 400);
    }
}

fn hostnames(list: &Vec<VolunteerState>) -> Vec<String> {
    list.iter().map(|v| v.info.hostname.clone()).collect()
}

#[test]
fn the_fittest_come_first() {
    let mut state = AppState::new();
    for (name, id, score) in [("a", 1, 10), ("b", 2, 90), ("c", 3, 50), ("d", 4, 70)] {
        join(&mut state, name, id, at(0));
        beat(&mut state, id, score, at(100));
    }
    beat(&mut state, 4, 70, at(0));
    assert_eq!(hostnames(&state.active_volunteers_at(&at(110))), vec!["b", "c", "a"]);
    assert_eq!(state.all_volunteers().len(), 4);
    assert!(state.active_volunteers().is_empty());
}

#[test]
fn services_go_to_the_fittest_that_is_free() {
    let mut state = AppState::new();
    for (name, id, score) in [("a", 1, 10), ("b", 2, 90), ("c", 3, 50)] {
        join(&mut state, name, id, at(0));
        beat(&mut state, id, score, at(100));
    }
    assert_eq!(best_free(&state, &at(100)).unwrap().id, 2);
    match register_service_at(&mut state, &service("blog"), at(100)) {
        Registration::Assigning { volunteer_id, assignment } => {
            assert_eq!(volunteer_id, 2);
            assert!(matches!(assignment.action(), AssignAction::Config(Action::Read)));
        }
        _ => panic!("a volunteer is free"),
    }
    let done = finish_registration(&mut state, &service("blog"), 2, at(101));
    assert_eq!(done.response.backend, "svc_blog");
    assert_eq!(done.response.domain, "blog.org");
    assert_eq!(done.response.assigned_to, Some("00000000-0000-0000-0000-000000000002".to_string()));
    assert_eq!(done.assignment.assigned_at, at(101));
    assert_eq!(best_free(&state, &at(100)).unwrap().id, 3);
    assert!(best_free(&state, &at(200)).is_none());
    finish_registration(&mut state, &service("x"), 99, at(101));
    assert_eq!(state.volunteer_count(), 3);
}

#[test]
fn services_wait_where_nobody_is_free() {
    let mut state = AppState::new();
    match register_service(&mut state, &service("blog")) {
        Registration::Queued(answer) => {
            assert_eq!(answer.status(), 201);
            let RegisterAnswer::Created(response) = answer else {
                panic!("the service must be registered");
            };
            assert_eq!(response.backend, "svc_blog");
            assert_eq!(response.domain, "blog.org");
            assert_eq!(response.assigned_to, None);
        }
        _ => panic!("nobody is there"),
    }
    assert_eq!(state.pending_count(), 1);
}

#[test]
fn registrations_are_answered() {
    let mut state = AppState::new();
    join(&mut state, "a", 2, at(0));
    let refused = Error::Runtime(RuntimeError::Response("no".to_string()));
    let words = refused.message();
    let (assignment, answer) =
        settle_registration(&mut state, &service("blog"), 2, Err(refused), at(5));
    assert!(assignment.is_none());
    assert_eq!(answer.status(), 500);
    assert!(matches!(answer, RegisterAnswer::Failed(w) if w == words));
    assert!(running(&state).is_empty());
    assert_eq!(state.pending_count(), 0);
    let (assignment, answer) = settle_registration(&mut state, &service("blog"), 2, Ok(()), at(6));
    assert_eq!(assignment.unwrap().assigned_at, at(6));
    assert_eq!(answer.status(), 201);
    match answer {
        RegisterAnswer::Created(response) => {
            assert_eq!(response.backend, "svc_blog");
            assert_eq!(
                response.assigned_to,
                Some("00000000-0000-0000-0000-000000000002".to_string())
            );
        }
        _ => panic!("the service must be registered"),
    }
    assert_eq!(running(&state), ["blog"]);
}

#[test]
fn services_are_listed() {
    let text = "frontend f\nbackend svc_a\nbackend volunteers\n".to_string();
    let (code, names) = list_services(Ok(text));
    assert_eq!(code, 200);
    assert_eq!(names.unwrap(), ["svc_a"]);
    let (code, names) = list_services(Err(ConfigError::FrontendNotFound));
    assert_eq!(code, 500);
    assert_eq!(names.unwrap_err(), Error::Config(ConfigError::FrontendNotFound).message());
}

#[test]
fn heartbeats_are_answered() {
    let mut state = AppState::new();
    assert_eq!(join(&mut state, "a", 2, at(0)).status(), 201);
    finish_registration(&mut state, &service("blog"), 2, at(1));
    let beat = |id: u128| HeartbeatRequest {
        volunteer_id: id,
        metrics: metrics(1),
        service_running: None,
        service_image: None,
    };
    let (code, answer) = heartbeat_answer(&heartbeat_at(&mut state, beat(2), at(2)));
    assert_eq!(code, 200);
    let answer = answer.unwrap();
    assert_eq!(answer.status, "ok");
    assert_eq!(answer.assignment.unwrap().image, "img/blog");
    let (code, answer) = heartbeat_answer(&heartbeat_at(&mut state, beat(3), at(2)));
    assert_eq!(code, 404);
    assert_eq!(answer.unwrap_err().code, "VOLUNTEER_NOT_FOUND");
}

#[test]
fn the_dead_are_evicted_and_their_services_wait() {
    let mut state = AppState::new();
    assert_eq!(CHECK_INTERVAL_SECS, 15);
    for (name, id, seen) in [("a", 1, 0), ("b", 2, 100), ("c", 3, 1)] {
        join(&mut state, name, id, at(0));
        beat(&mut state, id, 10, at(seen));
    }
    finish_registration(&mut state, &service("blog"), 1, at(1));
    let now = at(110);
    let dead = dead_volunteers_at(&state, &now);
    let mut ids: Vec<u128> = dead.iter().map(|d| d.id).collect();
    ids.sort();
    assert_eq!(ids, vec![1, 3]);
    for d in &dead {
        assert_eq!(evict(&mut state, d, now), d.id == 1);
    }
    assert_eq!(state.volunteer_count(), 1);
    assert_eq!(state.pending_count(), 1);
    assert!(dead_volunteers_at(&state, &now).is_empty());
    let returning = join(&mut state, "d", 4, at(120));
    assert_eq!(returning.volunteer.assigned_service.unwrap().service_name, "blog");
}

#[test]
fn services_of_the_dead_follow_those_that_wait() {
    let mut state = AppState::new();
    for id in 1..4 {
        join(&mut state, &format!("host-{}", id), id, at(0));
    }
    finish_registration(&mut state, &service("blog"), 1, at(1));
    finish_registration(&mut state, &service("wiki"), 3, at(1));
    assert!(matches!(register_service_at(&mut state, &service("first"), at(90)), Registration::Queued(_)));
    let dead = dead_volunteers_at(&state, &at(100));
    assert_eq!(dead.len(), 3);
    let mut expected = vec![("first".to_string(), at(90))];
    for (k, d) in dead.iter().enumerate() {
        let now = at(100 + k as i64);
        if let Some(a) = &d.assignment {
            expected.push((a.service_name.clone(), now));
        }
        evict(&mut state, d, now);
    }
    assert_eq!(expected.len(), 3);
    for (name, registered_at) in expected {
        let next = state.next_service().unwrap();
        assert_eq!(next.name, name);
        assert_eq!(next.registered_at, registered_at);
    }
    assert!(state.next_service().is_none());
}

#[test]
fn volunteers_that_leave_take_their_service_along() {
    let mut state = AppState::new();
    join(&mut state, "a", 1, at(0));
    join(&mut state, "b", 2, at(0));
    finish_registration(&mut state, &service("blog"), 1, at(1));
    finish_registration(&mut state, &service("wiki"), 2, at(1));
    assert_eq!(disconnect(&mut state, "00000000-0000-0000-0000-000000000001").status(), 200);
    assert_eq!(running(&state), ["wiki"]);
    assert_eq!(state.pending_count(), 0);
}

fn running(state: &AppState) -> Vec<String> {
    let mut names: Vec<String> = state
        .all_volunteers()
        .into_iter()
        .filter_map(|v| v.assigned_service.map(|a| a.service_name))
        .collect();
    names.sort();
    names
}

#[test]
fn services_are_not_lost_and_run_once() {
    let mut state = AppState::new();
    for name in ["a", "b", "c"] {
        let registration = register_service_at(&mut state, &service(name), at(0));
        assert!(matches!(registration, Registration::Queued(_)));
    }
    join(&mut state, "one", 1, at(0));
    join(&mut state, "two", 2, at(30));
    assert_eq!(running(&state), ["a", "b"]);
    for dead in &dead_volunteers_at(&state, &at(50)) {
        assert_eq!(dead.id, 1);
        assert!(evict(&mut state, dead, at(50)));
    }
    assert_eq!(running(&state), ["b"]);
    assert_eq!(state.pending_count(), 2);
    join(&mut state, "three", 3, at(50));
    assert_eq!(running(&state), ["b", "c"]);
    join(&mut state, "one", 4, at(51));
    join(&mut state, "one", 5, at(52));
    assert_eq!(running(&state), ["a", "b", "c"]);
    assert_eq!(state.pending_count(), 0);
    assert_eq!(state.volunteer_count(), 3);
}

#[test]
fn requests_go_to_the_fittest() {
    let mut state = AppState::new();
    assert!(dispatch(&state, Some("/x"), "GET").is_none());
    for (name, id, score) in [("a", 1, 10), ("b", 2, 90)] {
        join(&mut state, name, id, at(0));
        beat(&mut state, id, score, at(100));
    }
    let target = dispatch_at(&state, Some("/x?y=1"), "PATCH", &at(100)).unwrap();
    assert_eq!(target.volunteer.id, 2);
    assert_eq!(target.url, "http://10.0.0.1:30000/x?y=1");
    assert_eq!(target.method, "PATCH");
    let target = dispatch_at(&state, None, "no method", &at(100)).unwrap();
    assert_eq!(target.url, "http://10.0.0.1:30000/");
    assert_eq!(target.method, "GET");
    assert!(dispatch_at(&state, None, "GET", &at(1000)).is_none());
}

#[test]
fn answers_to_requests_that_were_passed_on() {
    assert_eq!(Forwarded::NoVolunteer.status(), 503);
    assert_eq!(Forwarded::NoVolunteer.text(), "No volunteers available");
    assert_eq!(Forwarded::UnreadableBody.status(), 500);
    assert_eq!(Forwarded::Unreachable.status(), 502);
    assert_eq!(Forwarded::Unreachable.text(), "");
    assert_eq!(Forwarded::Answered(204).status(), 204);
    assert_eq!(Forwarded::Answered(999).status(), 999);
    assert_eq!(Forwarded::Answered(99).status(), 500);
    assert_eq!(Forwarded::Answered(1000).status(), 500);
}
