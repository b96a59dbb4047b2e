use openshard::clock::Timestamp;
use openshard::registrar::db::{
    find_assignment, find_by_hostname, from_assignment_row, from_row, load_all, row_key,
    to_assignment_row, to_row, AssignmentRow, DbRow, RowError,
};
use openshard::registrar::recovery::{
    after_socket_check, plan_recovery, recover, RecoveryStep, RecoveryWork, SocketWait,
    SOCKET_ATTEMPTS,
};
use openshard::registrar::state::{
    AppState, HandshakeInfo, Metrics, ServiceAssignment, VolunteerState,
};

fn at(secs: i64, nanos: u32) -> Timestamp {
    Timestamp::new(secs, nanos).unwrap()
}

fn assignment() -> ServiceAssignment {
    ServiceAssignment {
        service_name: "blog".to_string(),
        domain: "b.org".to_string(),
        image: "img".to_string(),
        service_port: 65535,
        assigned_at: at(5, 123),
    }
}

fn volunteer(id: u128) -> VolunteerState {
    VolunteerState {
        id,
        info: HandshakeInfo {
            hostname: "host".to_string(),
            os: "linux".to_string(),
            arch: "arm".to_string(),
            cpu_cores: u32::MAX,
            cpu_model: "m".to_string(),
            memory_total_mb: u64::MAX,
            disk_free_gb: 1 << 63,
            docker_version: "27".to_string(),
            tunnel_version: "1".to_string(),
            service_addr: "10.0.0.1:30000".to_string(),
        },
        metrics: Metrics {
            cpu_pct: 15.5f32.to_bits(),
            mem_pct: 20.25f32.to_bits(),
            load_avg: 0,
            active_requests: u32::MAX,
            score: 42,
        },
        enrolled_at: at(1_700_000_000, 123_456_789),
        last_heartbeat: at(1_700_000_015, 0),
        assigned_service: Some(assignment()),
        service_running: Some(true),
        service_image: Some("img".to_string()),
    }
}

#[test]
fn volunteers_are_written_down() {
    let row = to_row(&volunteer(0x67e5504410b1426f9247bb680e5fe0c8));
    assert_eq!(row.id, "67e55044-10b1-426f-9247-bb680e5fe0c8");
    assert_eq!(row_key(0x67e5504410b1426f9247bb680e5fe0c8), row.id);
    assert_eq!(row.cpu_cores, 4294967295);
    assert_eq!(row.memory_total_mb, -1);
    assert_eq!(row.disk_free_gb, i64::MIN);
    assert_eq!(row.enrolled_at, "2023-11-14T22:13:20.123456789+00:00");
    assert_eq!(row.last_heartbeat, "2023-11-14T22:13:35+00:00");
}

#[test]
fn volunteers_are_read_back() {
    let v = volunteer(7);
    let read = from_row(&to_row(&v)).unwrap();
    assert_eq!(read.id, 7);
    assert_eq!(read.info.memory_total_mb, u64::MAX);
    assert_eq!(read.info.disk_free_gb, 1 << 63);
    assert_eq!(read.info.cpu_cores, u32::MAX);
    assert_eq!(read.info.service_addr, "10.0.0.1:30000");
    assert_eq!(read.metrics, v.metrics);
    assert_eq!(read.enrolled_at, v.enrolled_at);
    assert_eq!(read.last_heartbeat, v.last_heartbeat);
    assert!(read.assigned_service.is_none());
    assert!(read.service_running.is_none());
    assert!(read.service_image.is_none());
}

fn row_with(change: fn(&mut DbRow)) -> Result<VolunteerState, RowError> {
    let mut row = to_row(&volunteer(7));
    change(&mut row);
    from_row(&row)
}

#[test]
fn corrupt_rows_are_refused() {
    assert_eq!(row_with(|r| r.id = "x".to_string()).err(), Some(RowError::InvalidId));
    assert_eq!(
        row_with(|r| r.enrolled_at = "yesterday".to_string()).err(),
        Some(RowError::InvalidEnrolledAt)
    );
    assert_eq!(
        row_with(|r| r.last_heartbeat = String::new()).err(),
        Some(RowError::InvalidLastHeartbeat)
    );
    assert_eq!(
        row_with(|r| {
            r.id = String::new();
            r.enrolled_at = String::new();
        })
        .err(),
        Some(RowError::InvalidId)
    );
    assert_eq!(RowError::InvalidId.message(), "invalid id");
    assert_eq!(RowError::InvalidEnrolledAt.message(), "invalid enrolled_at");
    assert_eq!(RowError::InvalidLastHeartbeat.message(), "invalid last_heartbeat");
    assert_eq!(RowError::InvalidAssignedAt.message(), "invalid assigned_at");
}

#[test]
fn numbers_that_are_too_large_lose_their_upper_bits() {
    let read = row_with(|r| r.cpu_cores = (1 << 32) + 3).unwrap();
    assert_eq!(read.info.cpu_cores, 3);
    let read = row_with(|r| r.active_requests = -1).unwrap();
    assert_eq!(read.metrics.active_requests, u32::MAX);
}

#[test]
fn other_zones_are_understood() {
    let read = row_with(|r| r.enrolled_at = "2023-11-14T23:13:20+01:00".to_string()).unwrap();
    assert_eq!(read.enrolled_at, at(1_700_000_000, 0));
}

#[test]
fn assignments_are_read_back() {
    let row = to_assignment_row(9, &assignment());
    assert_eq!(row.volunteer_id, "00000000-0000-0000-0000-000000000009");
    assert_eq!(row.service_port, 65535);
    assert_eq!(row.assigned_at, "1970-01-01T00:00:05.000000123+00:00");
    let (id, read) = from_assignment_row(&row).unwrap();
    assert_eq!(id, 9);
    assert_eq!(read.service_name, "blog");
    assert_eq!(read.domain, "b.org");
    assert_eq!(read.image, "img");
    assert_eq!(read.service_port, 65535);
    assert_eq!(read.assigned_at, at(5, 123));
    let broken = AssignmentRow { assigned_at: "never".to_string(), ..to_assignment_row(9, &assignment()) };
    assert_eq!(from_assignment_row(&broken).err(), Some(RowError::InvalidAssignedAt));
    let broken = AssignmentRow { volunteer_id: "".to_string(), ..to_assignment_row(9, &assignment()) };
    assert_eq!(from_assignment_row(&broken).err(), Some(RowError::InvalidId));
}

#[test]
fn everything_is_loaded_but_what_is_corrupt() {
    let mut corrupt = to_row(&volunteer(3));
    corrupt.id = "?".to_string();
    let rows = vec![to_row(&volunteer(1)), corrupt, to_row(&volunteer(2))];
    let broken = AssignmentRow { assigned_at: String::new(), ..to_assignment_row(2, &assignment()) };
    let assignments = vec![broken, to_assignment_row(2, &assignment())];
    let list = load_all(&rows, &assignments);
    assert_eq!(list.len(), 2);
    assert_eq!(list[0].id, 1);
    assert!(list[0].assigned_service.is_none());
    assert_eq!(list[1].id, 2);
    assert_eq!(list[1].assigned_service.as_ref().unwrap().service_name, "blog");
    assert!(find_assignment(&assignments, 5).is_none());
}

#[test]
fn nodes_on_record() {
    let assignments = vec![to_assignment_row(2, &assignment())];
    let heard = |id: u128, hostname: &str, secs: i64, nanos: u32| {
        let mut v = volunteer(id);
        v.info.hostname = hostname.to_string();
        v.last_heartbeat = at(secs, nanos);
        to_row(&v)
    };
    let mut garbled = heard(9, "a", 99, 0);
    garbled.enrolled_at = "soon".to_string();
    let mut rows = vec![
        heard(1, "a", 10, 0),
        heard(2, "a", 20, 5),
        heard(3, "a", 20, 4),
        heard(4, "a", 20, 5),
        heard(5, "b", 30, 0),
        garbled,
    ];
    let known = find_by_hostname(&rows, &assignments, "a").unwrap();
    assert_eq!(known.id, 2);
    assert_eq!(known.assignment.unwrap().service_name, "blog");
    let known = find_by_hostname(&rows, &assignments, "b").unwrap();
    assert_eq!(known.id, 5);
    assert!(known.assignment.is_none());
    assert!(find_by_hostname(&rows, &assignments, "c").is_none());
    let last = rows.split_off(5);
    assert!(find_by_hostname(&last, &assignments, "a").is_none());
}

fn shape(plan: &Vec<RecoveryStep>) -> Vec<String> {
    plan.iter()
        .map(|step| match step {
            RecoveryStep::EnsureConfig { service, domain } => format!("config {} {}", service, domain),
            RecoveryStep::Settle(ms) => format!("wait {}", ms),
            RecoveryStep::UpsertVolunteer { id, addr } => format!("volunteer {} {}", id, addr),
            RecoveryStep::RestoreServer { service, id, addr } => {
                format!("server {} {} {}", service, id, addr)
            }
        })
        .collect()
}

#[test]
fn recovery_changes_the_configuration_first() {
    let mut plain = volunteer(1);
    plain.assigned_service = None;
    let survivors = vec![plain, volunteer(2), volunteer(3)];
    let mut state = AppState::new();
    let now = at(2_000_000_000, 0);
    let plan = recover(&mut state, &survivors, now);
    assert_eq!(
        shape(&plan),
        vec![
            "config blog b.org",
            "config blog b.org",
            "wait 1000",
            "volunteer 1 10.0.0.1:30000",
            "volunteer 2 10.0.0.1:30000",
            "server blog 2 10.0.0.1:30000",
            "volunteer 3 10.0.0.1:30000",
            "server blog 3 10.0.0.1:30000",
        ]
    );
    assert_eq!(state.volunteer_count(), 3);
    assert_eq!(state.volunteer(2).unwrap().last_heartbeat, now);
    assert_eq!(state.active_volunteers_at(&now).len(), 3);
}

#[test]
fn recovery_without_services_waits_for_nothing() {
    let mut plain = volunteer(1);
    plain.assigned_service = None;
    assert_eq!(shape(&plan_recovery(&vec![plain])), vec!["volunteer 1 10.0.0.1:30000"]);
    assert!(plan_recovery(&Vec::new()).is_empty());
}

#[test]
fn recovery_work() {
    let plan = plan_recovery(&vec![volunteer(2)]);
    let mut sent = Vec::new();
    for step in &plan {
        match step.start() {
            RecoveryWork::Edit(edit) => assert!(!edit.is_done()),
            RecoveryWork::Wait(ms) => assert_eq!(ms, 1000),
            RecoveryWork::Run(run) => {
                let run = run.resume(Ok(String::new()));
                sent.push(run.command().unwrap());
            }
        }
    }
    assert_eq!(
        sent,
        vec![
            "set weight volunteers/00000000000000000000000000000002 1".to_string(),
            "set weight svc_blog/primary 100".to_string(),
        ]
    );
}

#[test]
fn waiting_for_the_admin_socket() {
    assert_eq!(after_socket_check(true, 0), SocketWait::Present);
    assert_eq!(after_socket_check(false, 0), SocketWait::Again(500));
    assert_eq!(after_socket_check(false, SOCKET_ATTEMPTS - 1), SocketWait::Again(500));
    assert_eq!(after_socket_check(true, SOCKET_ATTEMPTS), SocketWait::GiveUp);
}
