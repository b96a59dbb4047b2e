//! What is written down of volunteers and assignments, and how it is read again.
use crate::clock;
use crate::clock::Timestamp;
use crate::ids;
use crate::ids::{hyphenated_text, parse_id};
use crate::registrar::enrollment;
use crate::registrar::enrollment::{KnownNode, KnownNodeView};
use crate::registrar::state;
use crate::registrar::state::{
    HandshakeInfo, HandshakeView, Metrics, ServiceAssignment, ServiceAssignmentView, ServiceView,
    VolunteerState, VolunteerView,
};
use crate::text::same_text;
use vstd::prelude::*;

verus! {

/// A volunteer, as it is written down. The fractions are held as the bits of 32-bit
/// floating-point numbers.
pub struct DbRow {
    /// The volunteer's identifier.
    pub id: String,
    /// See [`HandshakeInfo::hostname`].
    pub hostname: String,
    /// See [`HandshakeInfo::os`].
    pub os: String,
    /// See [`HandshakeInfo::arch`].
    pub arch: String,
    /// See [`HandshakeInfo::cpu_cores`].
    pub cpu_cores: i64,
    /// See [`HandshakeInfo::cpu_model`].
    pub cpu_model: String,
    /// See [`HandshakeInfo::memory_total_mb`].
    pub memory_total_mb: i64,
    /// See [`HandshakeInfo::disk_free_gb`].
    pub disk_free_gb: i64,
    /// See [`HandshakeInfo::docker_version`].
    pub docker_version: String,
    /// See [`HandshakeInfo::tunnel_version`].
    pub tunnel_version: String,
    /// See [`HandshakeInfo::service_addr`].
    pub service_addr: String,
    /// See [`Metrics::cpu_pct`].
    pub cpu_pct: u32,
    /// See [`Metrics::mem_pct`].
    pub mem_pct: u32,
    /// See [`Metrics::load_avg`].
    pub load_avg: u32,
    /// See [`Metrics::active_requests`].
    pub active_requests: i64,
    /// See [`Metrics::score`]. It is not written down but computed from the others.
    pub score: i64,
    /// When the volunteer enrolled.
    pub enrolled_at: String,
    /// When it sent its last heartbeat.
    pub last_heartbeat: String,
}

/// The value of a [`DbRow`].
pub struct DbRowView {
    /// See [`DbRow::id`].
    pub id: Seq<char>,
    /// See [`DbRow::hostname`].
    pub hostname: Seq<char>,
    /// See [`DbRow::os`].
    pub os: Seq<char>,
    /// See [`DbRow::arch`].
    pub arch: Seq<char>,
    /// See [`DbRow::cpu_cores`].
    pub cpu_cores: i64,
    /// See [`DbRow::cpu_model`].
    pub cpu_model: Seq<char>,
    /// See [`DbRow::memory_total_mb`].
    pub memory_total_mb: i64,
    /// See [`DbRow::disk_free_gb`].
    pub disk_free_gb: i64,
    /// See [`DbRow::docker_version`].
    pub docker_version: Seq<char>,
    /// See [`DbRow::tunnel_version`].
    pub tunnel_version: Seq<char>,
    /// See [`DbRow::service_addr`].
    pub service_addr: Seq<char>,
    /// See [`DbRow::cpu_pct`].
    pub cpu_pct: u32,
    /// See [`DbRow::mem_pct`].
    pub mem_pct: u32,
    /// See [`DbRow::load_avg`].
    pub load_avg: u32,
    /// See [`DbRow::active_requests`].
    pub active_requests: i64,
    /// See [`DbRow::score`].
    pub score: i64,
    /// See [`DbRow::enrolled_at`].
    pub enrolled_at: Seq<char>,
    /// See [`DbRow::last_heartbeat`].
    pub last_heartbeat: Seq<char>,
}

impl View for DbRow {
    type V = DbRowView;

    open spec fn view(&self) -> DbRowView {
        DbRowView {
            id: self.id@,
            hostname: self.hostname@,
            os: self.os@,
            arch: self.arch@,
            cpu_cores: self.cpu_cores,
            cpu_model: self.cpu_model@,
            memory_total_mb: self.memory_total_mb,
            disk_free_gb: self.disk_free_gb,
            docker_version: self.docker_version@,
            tunnel_version: self.tunnel_version@,
            service_addr: self.service_addr@,
            cpu_pct: self.cpu_pct,
            mem_pct: self.mem_pct,
            load_avg: self.load_avg,
            active_requests: self.active_requests,
            score: self.score,
            enrolled_at: self.enrolled_at@,
            last_heartbeat: self.last_heartbeat@,
        }
    }
}

/// The key under which what is written down of a volunteer is found.
pub fn row_key(id: u128) -> (key: String)
    ensures
        key@ == ids::hyphenated_of(id),
{
    hyphenated_text(id)
}

/// How a volunteer is written down. Numbers are kept bit for bit.
pub open spec fn row_of(v: VolunteerView) -> DbRowView {
    DbRowView {
        id: ids::hyphenated_of(v.id),
        hostname: v.info.hostname,
        os: v.info.os,
        arch: v.info.arch,
        cpu_cores: v.info.cpu_cores as i64,
        cpu_model: v.info.cpu_model,
        memory_total_mb: v.info.memory_total_mb as i64,
        disk_free_gb: v.info.disk_free_gb as i64,
        docker_version: v.info.docker_version,
        tunnel_version: v.info.tunnel_version,
        service_addr: v.info.service_addr,
        cpu_pct: v.metrics.cpu_pct,
        mem_pct: v.metrics.mem_pct,
        load_avg: v.metrics.load_avg,
        active_requests: v.metrics.active_requests as i64,
        score: v.metrics.score,
        enrolled_at: v.enrolled_at.text(),
        last_heartbeat: v.last_heartbeat.text(),
    }
}

/// Writes a volunteer down.
pub fn to_row(v: &VolunteerState) -> (row: DbRow)
    ensures
        row@ == row_of(v@),
{
    DbRow {
        id: hyphenated_text(v.id),
        hostname: v.info.hostname.clone(),
        os: v.info.os.clone(),
        arch: v.info.arch.clone(),
        cpu_cores: v.info.cpu_cores as i64,
        cpu_model: v.info.cpu_model.clone(),
        memory_total_mb: v.info.memory_total_mb as i64,
        disk_free_gb: v.info.disk_free_gb as i64,
        docker_version: v.info.docker_version.clone(),
        tunnel_version: v.info.tunnel_version.clone(),
        service_addr: v.info.service_addr.clone(),
        cpu_pct: v.metrics.cpu_pct,
        mem_pct: v.metrics.mem_pct,
        load_avg: v.metrics.load_avg,
        active_requests: v.metrics.active_requests as i64,
        score: v.metrics.score,
        enrolled_at: v.enrolled_at.to_text(),
        last_heartbeat: v.last_heartbeat.to_text(),
    }
}

/// Why a row cannot be read.
#[derive(Debug, PartialEq, Eq, Structural)]
pub enum RowError {
    /// Its identifier is none.
    InvalidId,
    /// The time of enrollment is none.
    InvalidEnrolledAt,
    /// The time of the last heartbeat is none.
    InvalidLastHeartbeat,
    /// The time of assignment is none.
    InvalidAssignedAt,
}

impl RowError {
    /// The error in words.
    pub fn message(&self) -> (words: String)
        ensures
            words@ == (match self {
                RowError::InvalidId => "invalid id"@,
                RowError::InvalidEnrolledAt => "invalid enrolled_at"@,
                RowError::InvalidLastHeartbeat => "invalid last_heartbeat"@,
                RowError::InvalidAssignedAt => "invalid assigned_at"@,
            }),
    {
        match self {
            RowError::InvalidId => "invalid id".to_owned(),
            RowError::InvalidEnrolledAt => "invalid enrolled_at".to_owned(),
            RowError::InvalidLastHeartbeat => "invalid last_heartbeat".to_owned(),
            RowError::InvalidAssignedAt => "invalid assigned_at".to_owned(),
        }
    }
}

/// The volunteer that a row stands for, or the first thing that is wrong with it.
/// It has no service yet. A number that is too large for its place loses its upper
/// bits.
pub open spec fn volunteer_of(row: DbRowView) -> Result<VolunteerView, RowError> {
    let id = ids::id_of(row.id);
    let enrolled_at = clock::timestamp_of(row.enrolled_at);
    let last_heartbeat = clock::timestamp_of(row.last_heartbeat);
    if id is None {
        Err(RowError::InvalidId)
    } else if enrolled_at is None {
        Err(RowError::InvalidEnrolledAt)
    } else if last_heartbeat is None {
        Err(RowError::InvalidLastHeartbeat)
    } else {
        Ok(
            VolunteerView {
                id: id->0,
                info: HandshakeView {
                    hostname: row.hostname,
                    os: row.os,
                    arch: row.arch,
                    cpu_cores: row.cpu_cores as u32,
                    cpu_model: row.cpu_model,
                    memory_total_mb: row.memory_total_mb as u64,
                    disk_free_gb: row.disk_free_gb as u64,
                    docker_version: row.docker_version,
                    tunnel_version: row.tunnel_version,
                    service_addr: row.service_addr,
                },
                metrics: Metrics {
                    cpu_pct: row.cpu_pct,
                    mem_pct: row.mem_pct,
                    load_avg: row.load_avg,
                    active_requests: row.active_requests as u32,
                    score: row.score,
                },
                enrolled_at: enrolled_at->0,
                last_heartbeat: last_heartbeat->0,
                assigned_service: None,
                service_running: None,
                service_image: None,
            },
        )
    }
}

/// What is left of a volunteer when it is written down and read again: all but the
/// service that it runs and what it says of it.
pub open spec fn as_recorded(v: VolunteerView) -> VolunteerView {
    VolunteerView { assigned_service: None, service_running: None, service_image: None, ..v }
}

/// Reads a volunteer from its row. What [`to_row`] wrote is read back.
pub fn from_row(row: &DbRow) -> (volunteer: Result<VolunteerState, RowError>)
    ensures
        match (volunteer, volunteer_of(row@)) {
            (Ok(v), Ok(w)) => v@ == w,
            (Err(e), Err(f)) => e == f,
            _ => false,
        },
        forall|v: VolunteerView|
            #![trigger row_of(v)]
            v.enrolled_at.valid() && v.last_heartbeat.valid() && row@ == row_of(v)
                ==> volunteer_of(row@) == Ok::<VolunteerView, RowError>(as_recorded(v)),
{
    let at = Timestamp::from_text(row.enrolled_at.as_str());
    let beat = Timestamp::from_text(row.last_heartbeat.as_str());
    let ghost value = row@;
    proof {
        assert forall|v: VolunteerView|
            v.enrolled_at.valid() && v.last_heartbeat.valid() && value == #[trigger] row_of(
                v,
            ) implies volunteer_of(value) == Ok::<VolunteerView, RowError>(as_recorded(v)) by {
            ids::texts_read_back(v.id);
            assert(clock::timestamp_of(value.enrolled_at) == Some(v.enrolled_at));
            assert(clock::timestamp_of(value.last_heartbeat) == Some(v.last_heartbeat));
            lemma_widened(v.info.cpu_cores);
            lemma_widened(v.metrics.active_requests);
            lemma_reread(v.info.memory_total_mb);
            lemma_reread(v.info.disk_free_gb);
        }
    }
    let id: u128 = match parse_id(row.id.as_str()) {
        Some(id) => id,
        None => return Err(RowError::InvalidId),
    };
    let enrolled_at = match at {
        Some(t) => t,
        None => return Err(RowError::InvalidEnrolledAt),
    };
    let last_heartbeat = match beat {
        Some(t) => t,
        None => return Err(RowError::InvalidLastHeartbeat),
    };
    Ok(
        VolunteerState {
            id,
            info: HandshakeInfo {
                hostname: row.hostname.clone(),
                os: row.os.clone(),
                arch: row.arch.clone(),
                cpu_cores: row.cpu_cores as u32,
                cpu_model: row.cpu_model.clone(),
                memory_total_mb: row.memory_total_mb as u64,
                disk_free_gb: row.disk_free_gb as u64,
                docker_version: row.docker_version.clone(),
                tunnel_version: row.tunnel_version.clone(),
                service_addr: row.service_addr.clone(),
            },
            metrics: Metrics {
                cpu_pct: row.cpu_pct,
                mem_pct: row.mem_pct,
                load_avg: row.load_avg,
                active_requests: row.active_requests as u32,
                score: row.score,
            },
            enrolled_at,
            last_heartbeat,
            assigned_service: None,
            service_running: None,
            service_image: None,
        },
    )
}

proof fn lemma_reread(n: u64)
    ensures
        (n as i64) as u64 == n,
{
    assert((n as i64) as u64 == n) by (bit_vector);
}

proof fn lemma_widened(n: u32)
    ensures
        (n as i64) as u32 == n,
{
}

// ── assignments ─────────────────────────────────────────────────────────────
/// An assignment, as it is written down.
pub struct AssignmentRow {
    /// The identifier of the volunteer.
    pub volunteer_id: String,
    /// The name of the service.
    pub service_name: String,
    /// The domain that it answers to.
    pub domain: String,
    /// The image that is run.
    pub image: String,
    /// The port that it listens on.
    pub service_port: i64,
    /// When it was assigned.
    pub assigned_at: String,
}

/// The value of an [`AssignmentRow`].
pub struct AssignmentRowView {
    /// See [`AssignmentRow::volunteer_id`].
    pub volunteer_id: Seq<char>,
    /// See [`AssignmentRow::service_name`].
    pub service_name: Seq<char>,
    /// See [`AssignmentRow::domain`].
    pub domain: Seq<char>,
    /// See [`AssignmentRow::image`].
    pub image: Seq<char>,
    /// See [`AssignmentRow::service_port`].
    pub service_port: i64,
    /// See [`AssignmentRow::assigned_at`].
    pub assigned_at: Seq<char>,
}

impl View for AssignmentRow {
    type V = AssignmentRowView;

    open spec fn view(&self) -> AssignmentRowView {
        AssignmentRowView {
            volunteer_id: self.volunteer_id@,
            service_name: self.service_name@,
            domain: self.domain@,
            image: self.image@,
            service_port: self.service_port,
            assigned_at: self.assigned_at@,
        }
    }
}

/// How an assignment is written down.
pub open spec fn assignment_row_of(id: u128, a: ServiceAssignmentView) -> AssignmentRowView {
    AssignmentRowView {
        volunteer_id: ids::hyphenated_of(id),
        service_name: a.service.name,
        domain: a.service.domain,
        image: a.service.image,
        service_port: a.service.port as i64,
        assigned_at: a.assigned_at.text(),
    }
}

/// Writes an assignment down.
pub fn to_assignment_row(id: u128, a: &ServiceAssignment) -> (row: AssignmentRow)
    ensures
        row@ == assignment_row_of(id, a@),
{
    AssignmentRow {
        volunteer_id: hyphenated_text(id),
        service_name: a.service_name.clone(),
        domain: a.domain.clone(),
        image: a.image.clone(),
        service_port: a.service_port as i64,
        assigned_at: a.assigned_at.to_text(),
    }
}

/// The volunteer and the assignment that a row stands for, or the first thing that
/// is wrong with it.
pub open spec fn assignment_of(row: AssignmentRowView) -> Result<
    (u128, ServiceAssignmentView),
    RowError,
> {
    let id = ids::id_of(row.volunteer_id);
    let assigned_at = clock::timestamp_of(row.assigned_at);
    if id is None {
        Err(RowError::InvalidId)
    } else if assigned_at is None {
        Err(RowError::InvalidAssignedAt)
    } else {
        Ok(
            (
                id->0,
                ServiceAssignmentView {
                    service: ServiceView {
                        name: row.service_name,
                        domain: row.domain,
                        image: row.image,
                        port: row.service_port as u16,
                    },
                    assigned_at: assigned_at->0,
                },
            ),
        )
    }
}

/// Reads an assignment from its row. What [`to_assignment_row`] wrote is read back.
pub fn from_assignment_row(row: &AssignmentRow) -> (read: Result<
    (u128, ServiceAssignment),
    RowError,
>)
    ensures
        match (read, assignment_of(row@)) {
            (Ok((id, a)), Ok((jd, b))) => id == jd && a@ == b,
            (Err(e), Err(f)) => e == f,
            _ => false,
        },
        forall|id: u128, a: ServiceAssignmentView|
            a.assigned_at.valid() && row@ == #[trigger] assignment_row_of(id, a)
                ==> assignment_of(row@) == Ok::<(u128, ServiceAssignmentView), RowError>((id, a)),
{
    let at = Timestamp::from_text(row.assigned_at.as_str());
    let ghost value = row@;
    proof {
        assert forall|id: u128, a: ServiceAssignmentView|
            a.assigned_at.valid() && value == #[trigger] assignment_row_of(id, a) implies
            assignment_of(value) == Ok::<(u128, ServiceAssignmentView), RowError>((id, a)) by {
            ids::texts_read_back(id);
            assert(clock::timestamp_of(value.assigned_at) == Some(a.assigned_at));
        }
    }
    let id: u128 = match parse_id(row.volunteer_id.as_str()) {
        Some(id) => id,
        None => return Err(RowError::InvalidId),
    };
    match at {
        Some(assigned_at) => Ok(
            (
                id,
                ServiceAssignment {
                    service_name: row.service_name.clone(),
                    domain: row.domain.clone(),
                    image: row.image.clone(),
                    service_port: row.service_port as u16,
                    assigned_at,
                },
            ),
        ),
        None => Err(RowError::InvalidAssignedAt),
    }
}

// ── reading everything ──────────────────────────────────────────────────────
/// The values of a list of assignment rows.
pub open spec fn assignment_rows(rows: Seq<AssignmentRow>) -> Seq<AssignmentRowView> {
    Seq::new(rows.len(), |i: int| rows[i]@)
}

/// The values of a list of rows.
pub open spec fn row_views(rows: Seq<DbRow>) -> Seq<DbRowView> {
    Seq::new(rows.len(), |i: int| rows[i]@)
}

/// The first assignment among some rows that is a volunteer's. Rows that cannot be
/// read are passed over.
pub open spec fn first_assignment(
    rows: Seq<AssignmentRowView>,
    id: u128,
) -> Option<ServiceAssignmentView>
    decreases rows.len(),
{
    if rows.len() == 0 {
        None
    } else {
        match assignment_of(rows[0]) {
            Ok((owner, a)) => if owner == id {
                Some(a)
            } else {
                first_assignment(rows.drop_first(), id)
            },
            Err(_) => first_assignment(rows.drop_first(), id),
        }
    }
}

/// Finds the assignment of a volunteer among the rows.
pub fn find_assignment(rows: &Vec<AssignmentRow>, id: u128) -> (found: Option<ServiceAssignment>)
    ensures
        state::maybe_assignment(found) == first_assignment(assignment_rows(rows@), id),
{
    let ghost all = assignment_rows(rows@);
    let mut k: usize = 0;
    assert(all.skip(0) =~= all);
    while k < rows.len()
        invariant
            k <= rows@.len(),
            all == assignment_rows(rows@),
            first_assignment(all, id) == first_assignment(all.skip(k as int), id),
        decreases rows@.len() - k,
    {
        assert(all.skip(k as int)[0] == rows@[k as int]@);
        assert(all.skip(k as int).drop_first() =~= all.skip(k + 1));
        if let Ok((owner, a)) = from_assignment_row(&rows[k]) {
            if owner == id {
                return Some(a);
            }
        }
        k = k + 1;
    }
    None
}

/// The volunteers that the first rows stand for, each with its assignment. Rows that
/// cannot be read are passed over.
pub open spec fn loaded(
    rows: Seq<DbRowView>,
    assignments: Seq<AssignmentRowView>,
    n: nat,
) -> Seq<VolunteerView>
    decreases n,
{
    if n == 0 {
        Seq::empty()
    } else {
        let before = loaded(rows, assignments, (n - 1) as nat);
        match volunteer_of(rows[n - 1]) {
            Ok(v) => before.push(
                VolunteerView { assigned_service: first_assignment(assignments, v.id), ..v },
            ),
            Err(_) => before,
        }
    }
}

/// Reads all volunteers, each with its assignment. Rows that cannot be read are
/// passed over.
pub fn load_all(rows: &Vec<DbRow>, assignments: &Vec<AssignmentRow>) -> (list: Vec<VolunteerState>)
    ensures
        state::volunteer_views(list@) == loaded(
            row_views(rows@),
            assignment_rows(assignments@),
            rows@.len(),
        ),
{
    let ghost all = row_views(rows@);
    let ghost given = assignment_rows(assignments@);
    let mut list: Vec<VolunteerState> = Vec::new();
    let mut k: usize = 0;
    assert(state::volunteer_views(list@) =~= loaded(all, given, 0));
    while k < rows.len()
        invariant
            k <= rows@.len(),
            all == row_views(rows@),
            given == assignment_rows(assignments@),
            state::volunteer_views(list@) == loaded(all, given, k as nat),
        decreases rows@.len() - k,
    {
        let ghost before = state::volunteer_views(list@);
        assert(rows@[k as int]@ == all[k as int]);
        if let Ok(mut v) = from_row(&rows[k]) {
            v.assigned_service = find_assignment(assignments, v.id);
            let ghost value = v@;
            list.push(v);
            assert(state::volunteer_views(list@) =~= before.push(value));
        }
        k = k + 1;
    }
    list
}

/// Where, among the first volunteers of a list, the one under a hostname is that was
/// heard of last. Of two that were heard of at once it is the first one.
pub open spec fn last_heard(list: Seq<VolunteerView>, hostname: Seq<char>, n: nat) -> Option<int>
    decreases n,
{
    if n == 0 {
        None
    } else {
        let before = last_heard(list, hostname, (n - 1) as nat);
        let v = list[n - 1];
        if v.info.hostname == hostname && (before is None || v.last_heartbeat.is_after(
            list[before->0].last_heartbeat,
        )) {
            Some(n - 1)
        } else {
            before
        }
    }
}

/// What is on record under a hostname: the volunteer that was heard of last, with its
/// assignment.
pub open spec fn record_of(
    rows: Seq<DbRowView>,
    assignments: Seq<AssignmentRowView>,
    hostname: Seq<char>,
) -> Option<KnownNodeView> {
    let list = loaded(rows, assignments, rows.len());
    match last_heard(list, hostname, list.len()) {
        Some(i) => Some(KnownNodeView { id: list[i].id, assignment: list[i].assigned_service }),
        None => None,
    }
}

/// Whether some row of a volunteer can be read and has a hostname and an identifier.
pub open spec fn has_row(rows: Seq<DbRowView>, hostname: Seq<char>, id: u128) -> bool {
    exists|i: int|
        0 <= i < rows.len() && volunteer_of(#[trigger] rows[i]) is Ok && rows[i].hostname
            == hostname && ids::id_of(rows[i].id) == Some(id)
}

proof fn lemma_loaded(
    rows: Seq<DbRowView>,
    assignments: Seq<AssignmentRowView>,
    n: nat,
    k: int,
)
    requires
        n <= rows.len(),
        0 <= k < loaded(rows, assignments, n).len(),
    ensures
        has_row(
            rows,
            loaded(rows, assignments, n)[k].info.hostname,
            loaded(rows, assignments, n)[k].id,
        ),
        loaded(rows, assignments, n)[k].assigned_service == first_assignment(
            assignments,
            loaded(rows, assignments, n)[k].id,
        ),
    decreases n,
{
    let fewer = loaded(rows, assignments, (n - 1) as nat);
    if k < fewer.len() {
        lemma_loaded(rows, assignments, (n - 1) as nat, k);
    } else {
        assert(volunteer_of(rows[n - 1]) is Ok);
    }
}

proof fn lemma_row_is_loaded(
    rows: Seq<DbRowView>,
    assignments: Seq<AssignmentRowView>,
    n: nat,
    i: int,
) -> (k: int)
    requires
        0 <= i < n <= rows.len(),
        volunteer_of(rows[i]) is Ok,
    ensures
        0 <= k < loaded(rows, assignments, n).len(),
        loaded(rows, assignments, n)[k].info.hostname == rows[i].hostname,
    decreases n,
{
    let fewer = loaded(rows, assignments, (n - 1) as nat);
    if i < n - 1 {
        lemma_row_is_loaded(rows, assignments, (n - 1) as nat, i)
    } else {
        fewer.len() as int
    }
}

proof fn lemma_last_heard(list: Seq<VolunteerView>, hostname: Seq<char>, n: nat)
    requires
        n <= list.len(),
    ensures
        match last_heard(list, hostname, n) {
            Some(i) => {
                &&& 0 <= i < n
                &&& list[i].info.hostname == hostname
                &&& forall|j: int|
                    0 <= j < n && (#[trigger] list[j]).info.hostname == hostname
                        ==> !list[j].last_heartbeat.is_after(list[i].last_heartbeat)
            },
            None => forall|j: int| 0 <= j < n ==> (#[trigger] list[j]).info.hostname != hostname,
        },
    decreases n,
{
    if n > 0 {
        lemma_last_heard(list, hostname, (n - 1) as nat);
    }
}

/// What is on record under a hostname has that hostname: it stands in a row with it, and
/// is there where some row with that hostname can be read.
pub proof fn records_have_the_hostname(
    rows: Seq<DbRowView>,
    assignments: Seq<AssignmentRowView>,
    hostname: Seq<char>,
)
    ensures
        match record_of(rows, assignments, hostname) {
            Some(known) => {
                &&& has_row(rows, hostname, known.id)
                &&& known.assignment == first_assignment(assignments, known.id)
            },
            None => forall|i: int|
                0 <= i < rows.len() && volunteer_of(#[trigger] rows[i]) is Ok ==> rows[i].hostname
                    != hostname,
        },
{
    let list = loaded(rows, assignments, rows.len());
    lemma_last_heard(list, hostname, list.len());
    match last_heard(list, hostname, list.len()) {
        Some(k) => {
            lemma_loaded(rows, assignments, rows.len(), k);
        },
        None => {
            assert forall|i: int|
                0 <= i < rows.len() && volunteer_of(#[trigger] rows[i]) is Ok implies
                rows[i].hostname != hostname by {
                let k = lemma_row_is_loaded(rows, assignments, rows.len(), i);
                assert(list[k].info.hostname != hostname);
            }
        },
    }
}

/// Finds what is on record under a hostname.
pub fn find_by_hostname(
    rows: &Vec<DbRow>,
    assignments: &Vec<AssignmentRow>,
    hostname: &str,
) -> (known: Option<KnownNode>)
    ensures
        enrollment::maybe_known(known) == record_of(
            row_views(rows@),
            assignment_rows(assignments@),
            hostname@,
        ),
        match known {
            Some(k) => {
                &&& has_row(row_views(rows@), hostname@, k.id)
                &&& k@.assignment == first_assignment(assignment_rows(assignments@), k.id)
            },
            None => forall|i: int|
                0 <= i < rows@.len() && volunteer_of(#[trigger] row_views(rows@)[i]) is Ok
                    ==> row_views(rows@)[i].hostname != hostname@,
        },
{
    let list = load_all(rows, assignments);
    let ghost views = state::volunteer_views(list@);
    let mut best: Option<usize> = None;
    let mut k: usize = 0;
    while k < list.len()
        invariant
            k <= list@.len(),
            views == state::volunteer_views(list@),
            match best {
                Some(b) => b < k && last_heard(views, hostname@, k as nat) == Some(b as int),
                None => last_heard(views, hostname@, k as nat) is None,
            },
        decreases list@.len() - k,
    {
        assert(views[k as int] == list@[k as int]@);
        if same_text(list[k].info.hostname.as_str(), hostname) {
            let better = match best {
                Some(b) => {
                    assert(views[b as int] == list@[b as int]@);
                    list[k].last_heartbeat.comes_after(&list[b].last_heartbeat)
                },
                None => true,
            };
            if better {
                best = Some(k);
            }
        }
        k = k + 1;
    }
    proof {
        records_have_the_hostname(row_views(rows@), assignment_rows(assignments@), hostname@);
    }
    match best {
        Some(b) => {
            assert(views[b as int] == list@[b as int]@);
            Some(
                KnownNode {
                    id: list[b].id,
                    assignment: state::copy_assignment(&list[b].assigned_service),
                },
            )
        },
        None => None,
    }
}

} // verus!
