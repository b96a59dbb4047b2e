//! What is written down, what is read again, and what is done after a restart.
use crate::clock;
use crate::clock::TimestampView;
use crate::haproxy;
use crate::haproxy::runtime::RuntimeErrorView;
use crate::ids;
use crate::promises::proxy;
use crate::registrar::churn;
use crate::registrar::db;
use crate::registrar::db::{AssignmentRow, AssignmentRowView, DbRow, DbRowView, RowError};
use crate::registrar::enrollment::KnownNode;
use crate::registrar::recovery;
use crate::registrar::recovery::{
    RecoveryStep, RecoveryStepView, RecoveryWork, RecoveryWorkView,
};
use crate::registrar::state;
use crate::registrar::state::{
    ServiceAssignment, ServiceAssignmentView, VolunteerState, VolunteerView,
};
use crate::text;
use vstd::prelude::*;

verus! {

// ── rows ────────────────────────────────────────────────────────────────────
/// Each thing known of a volunteer stands in the column of its name: texts and fractions
/// as they are, numbers as they are up to the largest that a column holds, instants and
/// identifiers as their texts.
pub proof fn volunteers_are_written_column_by_column(row: DbRow, v: VolunteerView)
    requires
        row@ == db::row_of(v),
    ensures
        row.id@ == ids::hyphenated_of(v.id),
        row.hostname@ == v.info.hostname,
        row.os@ == v.info.os,
        row.arch@ == v.info.arch,
        row.cpu_cores == v.info.cpu_cores,
        row.cpu_model@ == v.info.cpu_model,
        v.info.memory_total_mb <= i64::MAX ==> row.memory_total_mb == v.info.memory_total_mb,
        v.info.disk_free_gb <= i64::MAX ==> row.disk_free_gb == v.info.disk_free_gb,
        row.docker_version@ == v.info.docker_version,
        row.tunnel_version@ == v.info.tunnel_version,
        row.service_addr@ == v.info.service_addr,
        row.cpu_pct == v.metrics.cpu_pct,
        row.mem_pct == v.metrics.mem_pct,
        row.load_avg == v.metrics.load_avg,
        row.active_requests == v.metrics.active_requests,
        row.score == v.metrics.score,
        row.enrolled_at@ == clock::rfc3339_of(v.enrolled_at.secs, v.enrolled_at.nanos),
        row.last_heartbeat@ == clock::rfc3339_of(v.last_heartbeat.secs, v.last_heartbeat.nanos),
{
    let shown = row@;
    assert(shown.id == row.id@);
}

/// A row is read column by column, and what it stands for runs no service yet.
pub proof fn rows_are_read_column_by_column(row: DbRow)
    requires
        db::volunteer_of(row@) is Ok,
    ensures
        ({
            let v = db::volunteer_of(row@)->Ok_0;
            &&& ids::id_of(row.id@) == Some(v.id)
            &&& v.info.hostname == row.hostname@
            &&& v.info.os == row.os@
            &&& v.info.arch == row.arch@
            &&& 0 <= row.cpu_cores <= u32::MAX ==> v.info.cpu_cores == row.cpu_cores
            &&& v.info.cpu_model == row.cpu_model@
            &&& 0 <= row.memory_total_mb ==> v.info.memory_total_mb == row.memory_total_mb
            &&& 0 <= row.disk_free_gb ==> v.info.disk_free_gb == row.disk_free_gb
            &&& v.info.docker_version == row.docker_version@
            &&& v.info.tunnel_version == row.tunnel_version@
            &&& v.info.service_addr == row.service_addr@
            &&& v.metrics.cpu_pct == row.cpu_pct
            &&& v.metrics.mem_pct == row.mem_pct
            &&& v.metrics.load_avg == row.load_avg
            &&& 0 <= row.active_requests <= u32::MAX ==> v.metrics.active_requests
                == row.active_requests
            &&& v.metrics.score == row.score
            &&& clock::instant_of(row.enrolled_at@) == Some(
                (v.enrolled_at.secs, v.enrolled_at.nanos),
            )
            &&& clock::instant_of(row.last_heartbeat@) == Some(
                (v.last_heartbeat.secs, v.last_heartbeat.nanos),
            )
            &&& v.assigned_service is None
            &&& v.service_running is None
            &&& v.service_image is None
        }),
{
}

/// A row is read just where its identifier and its two instants can be, and the first of
/// the three that cannot be read is named.
pub proof fn rows_are_read_where_they_can_be(row: DbRow)
    ensures
        ({
            let id = ids::id_of(row.id@) is Some;
            let since = clock::instant_of(row.enrolled_at@) is Some;
            let heard = clock::instant_of(row.last_heartbeat@) is Some;
            let read = db::volunteer_of(row@);
            &&& read is Ok <==> id && since && heard
            &&& !id ==> read == Err::<VolunteerView, RowError>(RowError::InvalidId)
            &&& id && !since ==> read == Err::<VolunteerView, RowError>(
                RowError::InvalidEnrolledAt,
            )
            &&& id && since && !heard ==> read == Err::<VolunteerView, RowError>(
                RowError::InvalidLastHeartbeat,
            )
        }),
{
}

/// What is left of a volunteer that was written down and read again is all but its
/// service.
pub proof fn records_keep_all_but_the_service(v: VolunteerView)
    ensures
        ({
            let w = db::as_recorded(v);
            &&& w.id == v.id
            &&& w.info == v.info
            &&& w.metrics == v.metrics
            &&& w.enrolled_at == v.enrolled_at
            &&& w.last_heartbeat == v.last_heartbeat
            &&& w.assigned_service is None
            &&& w.service_running is None
            &&& w.service_image is None
        }),
{
}

/// An assignment is written column by column, and read so.
pub proof fn assignments_are_kept_column_by_column(
    row: AssignmentRow,
    id: u128,
    a: ServiceAssignmentView,
)
    ensures
        row@ == db::assignment_row_of(id, a) ==> {
            &&& row.volunteer_id@ == ids::hyphenated_of(id)
            &&& row.service_name@ == a.service.name
            &&& row.domain@ == a.service.domain
            &&& row.image@ == a.service.image
            &&& row.service_port == a.service.port
            &&& row.assigned_at@ == clock::rfc3339_of(a.assigned_at.secs, a.assigned_at.nanos)
        },
        db::assignment_of(row@) matches Ok((owner, b)) ==> {
            &&& ids::id_of(row.volunteer_id@) == Some(owner)
            &&& b.service.name == row.service_name@
            &&& b.service.domain == row.domain@
            &&& b.service.image == row.image@
            &&& 0 <= row.service_port <= u16::MAX ==> b.service.port == row.service_port
            &&& clock::instant_of(row.assigned_at@) == Some(
                (b.assigned_at.secs, b.assigned_at.nanos),
            )
        },
        ({
            let owner = ids::id_of(row.volunteer_id@) is Some;
            let at = clock::instant_of(row.assigned_at@) is Some;
            let read = db::assignment_of(row@);
            &&& read is Ok <==> owner && at
            &&& !owner ==> read == Err::<(u128, ServiceAssignmentView), RowError>(
                RowError::InvalidId,
            )
            &&& owner && !at ==> read == Err::<(u128, ServiceAssignmentView), RowError>(
                RowError::InvalidAssignedAt,
            )
        }),
{
    let shown = row@;
    assert(shown.volunteer_id == row.volunteer_id@);
}

/// A volunteer has the assignment of the first row that is its own: no row before it is,
/// and where there is none, no row at all is.
pub proof fn the_first_assignment_counts(rows: Seq<AssignmentRowView>, id: u128) -> (at: int)
    ensures
        db::first_assignment(rows, id) is Some ==> 0 <= at < rows.len() && db::assignment_of(
            rows[at],
        ) == Ok::<(u128, ServiceAssignmentView), RowError>(
            (id, db::first_assignment(rows, id)->0),
        ),
        forall|k: int|
            0 <= k < rows.len() && (db::first_assignment(rows, id) is None || k < at) ==> !(
            db::assignment_of(#[trigger] rows[k]) is Ok && db::assignment_of(rows[k])->Ok_0.0
                == id),
    decreases rows.len(),
{
    if rows.len() == 0 {
        0
    } else {
        let rest = rows.drop_first();
        let deeper = the_first_assignment_counts(rest, id);
        if db::assignment_of(rows[0]) is Ok && db::assignment_of(rows[0])->Ok_0.0 == id {
            0
        } else {
            assert forall|k: int|
                0 <= k < rows.len() && (db::first_assignment(rows, id) is None || k < deeper
                    + 1) implies !(db::assignment_of(#[trigger] rows[k]) is Ok
                && db::assignment_of(rows[k])->Ok_0.0 == id) by {
                if k > 0 {
                    assert(rows[k] == rest[k - 1]);
                }
            }
            deeper + 1
        }
    }
}

/// Every row that can be read is loaded, with all that it says and with the volunteer's
/// assignment.
pub proof fn readable_rows_are_loaded(
    rows: Seq<DbRowView>,
    assignments: Seq<AssignmentRowView>,
    n: nat,
    i: int,
) -> (k: int)
    requires
        0 <= i < n <= rows.len(),
        db::volunteer_of(rows[i]) is Ok,
    ensures
        ({
            let list = db::loaded(rows, assignments, n);
            let v = db::volunteer_of(rows[i])->Ok_0;
            &&& 0 <= k < list.len()
            &&& k <= i
            &&& list[k].id == v.id
            &&& list[k].info == v.info
            &&& list[k].metrics == v.metrics
            &&& list[k].enrolled_at == v.enrolled_at
            &&& list[k].last_heartbeat == v.last_heartbeat
            &&& list[k].assigned_service == db::first_assignment(assignments, v.id)
        }),
    decreases n,
{
    let fewer = db::loaded(rows, assignments, (n - 1) as nat);
    lemma_not_more_than_rows(rows, assignments, (n - 1) as nat);
    if i < n - 1 {
        let k = readable_rows_are_loaded(rows, assignments, (n - 1) as nat, i);
        assert(db::loaded(rows, assignments, n)[k] == fewer[k]);
        k
    } else {
        fewer.len() as int
    }
}

/// Only rows that can be read are loaded, and each just once: rows that come later are
/// loaded later.
pub proof fn only_readable_rows_are_loaded(
    rows: Seq<DbRowView>,
    assignments: Seq<AssignmentRowView>,
    n: nat,
    k: int,
) -> (i: int)
    requires
        n <= rows.len(),
        0 <= k < db::loaded(rows, assignments, n).len(),
    ensures
        k <= i < n,
        db::volunteer_of(rows[i]) is Ok,
        db::loaded(rows, assignments, n)[k].id == db::volunteer_of(rows[i])->Ok_0.id,
        db::loaded(rows, assignments, n)[k].info == db::volunteer_of(rows[i])->Ok_0.info,
        db::loaded(rows, assignments, i as nat).len() == k,
    decreases n,
{
    let fewer = db::loaded(rows, assignments, (n - 1) as nat);
    lemma_not_more_than_rows(rows, assignments, (n - 1) as nat);
    if k < fewer.len() {
        assert(db::loaded(rows, assignments, n)[k] == fewer[k]);
        only_readable_rows_are_loaded(rows, assignments, (n - 1) as nat, k)
    } else {
        n - 1
    }
}

proof fn lemma_not_more_than_rows(
    rows: Seq<DbRowView>,
    assignments: Seq<AssignmentRowView>,
    n: nat,
)
    ensures
        db::loaded(rows, assignments, n).len() <= n,
    decreases n,
{
    if n > 0 {
        lemma_not_more_than_rows(rows, assignments, (n - 1) as nat);
    }
}

/// On record under a hostname is a volunteer with that hostname, and none with that
/// hostname has a later last heartbeat. None is on record just where none has it.
pub proof fn the_last_heard_is_on_record(
    list: Seq<VolunteerView>,
    hostname: Seq<char>,
    n: nat,
    j: int,
)
    requires
        0 <= j < n <= list.len(),
        list[j].info.hostname == hostname,
    ensures
        db::last_heard(list, hostname, n) is Some,
        ({
            let i = db::last_heard(list, hostname, n)->0;
            &&& 0 <= i < n
            &&& list[i].info.hostname == hostname
            &&& list[j].last_heartbeat.secs < list[i].last_heartbeat.secs || (
            list[j].last_heartbeat.secs == list[i].last_heartbeat.secs
                && list[j].last_heartbeat.nanos <= list[i].last_heartbeat.nanos)
            &&& list[j].last_heartbeat == list[i].last_heartbeat ==> i <= j
        }),
    decreases n,
{
    lemma_on_record(list, hostname, (n - 1) as nat);
    if j < n - 1 {
        the_last_heard_is_on_record(list, hostname, (n - 1) as nat, j);
    }
}

proof fn lemma_on_record(list: Seq<VolunteerView>, hostname: Seq<char>, n: nat)
    requires
        n <= list.len(),
    ensures
        db::last_heard(list, hostname, n) is Some ==> 0 <= db::last_heard(list, hostname, n)->0 < n
            && list[db::last_heard(list, hostname, n)->0].info.hostname == hostname,
    decreases n,
{
    if n > 0 {
        lemma_on_record(list, hostname, (n - 1) as nat);
    }
}

/// Where no volunteer has a hostname, none is on record under it.
pub proof fn strangers_are_not_on_record(list: Seq<VolunteerView>, hostname: Seq<char>, n: nat)
    requires
        n <= list.len(),
        forall|j: int| 0 <= j < n ==> (#[trigger] list[j]).info.hostname != hostname,
    ensures
        db::last_heard(list, hostname, n) is None,
{
    lemma_on_record(list, hostname, n);
}

/// The record under a hostname is the identifier and the assignment of the volunteer that
/// was heard of last under it.
pub proof fn records_are_of_the_last_heard(
    rows: Seq<DbRowView>,
    assignments: Seq<AssignmentRowView>,
    hostname: Seq<char>,
    j: int,
)
    requires
        0 <= j < db::loaded(rows, assignments, rows.len()).len(),
        db::loaded(rows, assignments, rows.len())[j].info.hostname == hostname,
    ensures
        ({
            let list = db::loaded(rows, assignments, rows.len());
            &&& db::record_of(rows, assignments, hostname) is Some
            &&& exists|i: int|
                0 <= i < list.len() && (#[trigger] list[i]).info.hostname == hostname
                    && db::record_of(rows, assignments, hostname)->0.id == list[i].id
                    && db::record_of(rows, assignments, hostname)->0.assignment
                    == list[i].assigned_service && (list[j].last_heartbeat.secs
                    < list[i].last_heartbeat.secs || (list[j].last_heartbeat.secs
                    == list[i].last_heartbeat.secs && list[j].last_heartbeat.nanos
                    <= list[i].last_heartbeat.nanos))
        }),
{
    let list = db::loaded(rows, assignments, rows.len());
    the_last_heard_is_on_record(list, hostname, list.len(), j);
    let i = db::last_heard(list, hostname, list.len())->0;
    assert(list[i].info.hostname == hostname);
}

/// An instant comes after another just where more seconds, or as many seconds and more
/// nanoseconds, lie before it.
pub proof fn instants_are_in_order(a: TimestampView, b: TimestampView)
    ensures
        a.is_after(b) <==> a.secs > b.secs || (a.secs == b.secs && a.nanos > b.nanos),
{
}

/// Rows are shown one by one, in their order.
pub proof fn rows_are_shown(rows: Seq<DbRow>, assignments: Seq<AssignmentRow>, i: int)
    ensures
        db::row_views(rows).len() == rows.len(),
        0 <= i < rows.len() ==> db::row_views(rows)[i] == rows[i]@,
        db::assignment_rows(assignments).len() == assignments.len(),
        0 <= i < assignments.len() ==> db::assignment_rows(assignments)[i] == assignments[i]@,
{
}

// ── recovery ────────────────────────────────────────────────────────────────
/// Every volunteer that is back is put among those that share the traffic, at its
/// address. Directly behind that comes, where it runs a service, the server of that
/// service, at the same address.
pub proof fn every_volunteer_is_put_back(list: Seq<VolunteerView>, i: int) -> (at: int)
    requires
        0 <= i < list.len(),
    ensures
        ({
            let plan = recovery::recovery_plan(list);
            let v = list[i];
            &&& 0 <= at < plan.len()
            &&& plan[at] == (RecoveryStepView::UpsertVolunteer {
                id: v.id,
                addr: v.info.service_addr,
            })
            &&& v.assigned_service matches Some(a) ==> at + 1 < plan.len() && plan[at + 1] == (
            RecoveryStepView::RestoreServer {
                service: a.service.name,
                id: v.id,
                addr: v.info.service_addr,
            })
        }),
{
    let plan = recovery::recovery_plan(list);
    let servers = recovery::server_pass(list, list.len());
    let before = plan.len() - servers.len();
    let k = lemma_server_at(list, list.len(), i);
    assert(plan[before + k] == servers[k]);
    if list[i].assigned_service is Some {
        assert(plan[before + k + 1] == servers[k + 1]);
    }
    before + k
}

proof fn lemma_server_at(list: Seq<VolunteerView>, n: nat, i: int) -> (k: int)
    requires
        0 <= i < n <= list.len(),
    ensures
        ({
            let servers = recovery::server_pass(list, n);
            let v = list[i];
            &&& 0 <= k < servers.len()
            &&& servers[k] == (RecoveryStepView::UpsertVolunteer {
                id: v.id,
                addr: v.info.service_addr,
            })
            &&& v.assigned_service matches Some(a) ==> k + 1 < servers.len() && servers[k + 1] == (
            RecoveryStepView::RestoreServer {
                service: a.service.name,
                id: v.id,
                addr: v.info.service_addr,
            })
        }),
    decreases n,
{
    let fewer = recovery::server_pass(list, (n - 1) as nat);
    if i < n - 1 {
        let k = lemma_server_at(list, (n - 1) as nat, i);
        assert(recovery::server_pass(list, n)[k] == fewer[k]);
        if list[i].assigned_service is Some {
            assert(recovery::server_pass(list, n)[k + 1] == fewer[k + 1]);
        }
        k
    } else {
        fewer.len() as int
    }
}

/// Every service that a volunteer runs gets its configuration, with its domain.
pub proof fn every_service_is_configured(list: Seq<VolunteerView>, i: int) -> (at: int)
    requires
        0 <= i < list.len(),
        list[i].assigned_service is Some,
    ensures
        ({
            let plan = recovery::recovery_plan(list);
            let a = list[i].assigned_service->0;
            &&& 0 <= at < plan.len()
            &&& plan[at] == (RecoveryStepView::EnsureConfig {
                service: a.service.name,
                domain: a.service.domain,
            })
        }),
{
    let k = lemma_config_at(list, list.len(), i);
    assert(recovery::recovery_plan(list)[k] == recovery::config_pass(list, list.len())[k]);
    k
}

proof fn lemma_config_at(list: Seq<VolunteerView>, n: nat, i: int) -> (k: int)
    requires
        0 <= i < n <= list.len(),
        list[i].assigned_service is Some,
    ensures
        0 <= k < recovery::config_pass(list, n).len(),
        recovery::config_pass(list, n)[k] == (RecoveryStepView::EnsureConfig {
            service: list[i].assigned_service->0.service.name,
            domain: list[i].assigned_service->0.service.domain,
        }),
    decreases n,
{
    let fewer = recovery::config_pass(list, (n - 1) as nat);
    if i < n - 1 {
        let k = lemma_config_at(list, (n - 1) as nat, i);
        assert(recovery::config_pass(list, n)[k] == fewer[k]);
        k
    } else {
        fewer.len() as int
    }
}

/// How many of the first volunteers of a list run a service.
pub open spec fn running(list: Seq<VolunteerView>, n: nat) -> nat
    decreases n,
{
    if n == 0 {
        0
    } else if list[n - 1].assigned_service is Some {
        running(list, (n - 1) as nat) + 1
    } else {
        running(list, (n - 1) as nat)
    }
}

proof fn lemma_lengths(list: Seq<VolunteerView>, n: nat)
    ensures
        recovery::config_pass(list, n).len() == running(list, n),
        recovery::server_pass(list, n).len() == n + running(list, n),
    decreases n,
{
    if n > 0 {
        lemma_lengths(list, (n - 1) as nat);
    }
}

/// First come the configurations, one for each service that runs. Where there is one, a
/// wait of one second follows, and no other. Then come the volunteers and the servers of
/// their services, and nothing else.
pub proof fn recovery_goes_in_three_parts(list: Seq<VolunteerView>, k: int)
    requires
        0 <= k < recovery::recovery_plan(list).len(),
    ensures
        ({
            let plan = recovery::recovery_plan(list);
            let n = running(list, list.len());
            &&& n == 0 ==> plan.len() == list.len()
            &&& n > 0 ==> plan.len() == list.len() + 2 * n + 1
            &&& k < n ==> plan[k] is EnsureConfig
            &&& k == n && n > 0 ==> plan[k] == RecoveryStepView::Settle(1000)
            &&& k > n || n == 0 ==> plan[k] is UpsertVolunteer || plan[k] is RestoreServer
        }),
{
    let plan = recovery::recovery_plan(list);
    let first = recovery::config_pass(list, list.len());
    let servers = recovery::server_pass(list, list.len());
    lemma_lengths(list, list.len());
    let n = first.len();
    let wait: int = if n > 0 {
        1
    } else {
        0
    };
    if k < n {
        lemma_config_kind(list, list.len(), k);
        assert(plan[k] == first[k]);
    } else if k >= n + wait {
        lemma_server_kind(list, list.len(), k - n - wait);
        assert(plan[k] == servers[k - n - wait]);
    }
}

proof fn lemma_config_kind(list: Seq<VolunteerView>, n: nat, k: int)
    requires
        0 <= k < recovery::config_pass(list, n).len(),
    ensures
        recovery::config_pass(list, n)[k] is EnsureConfig,
    decreases n,
{
    let fewer = recovery::config_pass(list, (n - 1) as nat);
    if k < fewer.len() {
        lemma_config_kind(list, (n - 1) as nat, k);
        assert(recovery::config_pass(list, n)[k] == fewer[k]);
    }
}

proof fn lemma_server_kind(list: Seq<VolunteerView>, n: nat, k: int)
    requires
        0 <= k < recovery::server_pass(list, n).len(),
    ensures
        recovery::server_pass(list, n)[k] is UpsertVolunteer || recovery::server_pass(list, n)[k]
            is RestoreServer,
    decreases n,
{
    let fewer = recovery::server_pass(list, (n - 1) as nat);
    if k < fewer.len() {
        lemma_server_kind(list, (n - 1) as nat, k);
        assert(recovery::server_pass(list, n)[k] == fewer[k]);
    }
}

/// What is done for a service is an edit that adds its backend and its domain; a wait is
/// as long as it says.
pub proof fn configurations_add_the_service(service: Seq<char>, domain: Seq<char>, ms: u64)
    ensures
        ({
            let work = RecoveryStepView::EnsureConfig { service, domain }.work();
            &&& work matches RecoveryWorkView::Edit(edit)
            &&& edit.service == "svc_"@ + service
            &&& edit.domain == Some(domain)
            &&& edit.stage is Reading
        }),
        RecoveryStepView::Settle(ms).work() == RecoveryWorkView::Wait(ms),
{
}

/// A volunteer is moved to its address among those that share the traffic, where it is
/// known by its identifier without hyphens, or added there; it weighs 1 and is ready.
pub proof fn volunteers_come_back_light(
    id: u128,
    ip: Seq<char>,
    port: Seq<char>,
    e: RuntimeErrorView,
    first: Seq<char>,
    second: Seq<char>,
)
    requires
        !port.contains(':'),
    ensures
        ({
            let work = RecoveryStepView::UpsertVolunteer {
                id,
                addr: ip + seq![':'] + port,
            }.work();
            let name = "volunteers"@ + "/"@ + ids::simple_of(id);
            &&& work matches RecoveryWorkView::Run(run)
            &&& run.command() == Some("set server "@ + name + " addr "@ + ip + " port "@ + port)
            &&& text::has_part(e.text(), "No such server"@) ==> run.after(Err(e)).command() == Some(
                "add server "@ + name + " "@ + (ip + seq![':'] + port),
            )
            &&& run.after(Ok(first)).command() == Some(
                "set weight "@ + name + " "@ + text::decimal(1),
            )
            &&& run.after(Ok(first)).after(Ok(second)).command() == Some(
                "set server "@ + name + " state "@ + "ready"@,
            )
        }),
{
    let simple = ids::simple_of(id);
    let name = "volunteers"@ + "/"@ + simple;
    let addr = ip + seq![':'] + port;
    proxy::upserting_moves_or_adds("volunteers"@, simple, ip, port, 1, e, first, second, first);
    assert("set server "@ + "volunteers"@ + "/"@ + simple + " addr "@ + ip + " port "@ + port
        =~= "set server "@ + name + " addr "@ + ip + " port "@ + port);
    assert("add server "@ + "volunteers"@ + "/"@ + simple + " "@ + addr =~= "add server "@ + name
        + " "@ + addr);
    assert("set weight "@ + "volunteers"@ + "/"@ + simple + " "@ + text::decimal(1)
        =~= "set weight "@ + name + " "@ + text::decimal(1));
    assert("set server "@ + "volunteers"@ + "/"@ + simple + " state "@ + "ready"@
        =~= "set server "@ + name + " state "@ + "ready"@);
}

/// The server of a service is moved to the volunteer's address in the backend of the
/// service, or added there; it weighs 100 and is ready.
pub proof fn services_come_back_whole(
    service: Seq<char>,
    id: u128,
    ip: Seq<char>,
    port: Seq<char>,
    e: RuntimeErrorView,
    first: Seq<char>,
    second: Seq<char>,
)
    requires
        !port.contains(':'),
    ensures
        ({
            let work = RecoveryStepView::RestoreServer {
                service,
                id,
                addr: ip + seq![':'] + port,
            }.work();
            let name = "svc_"@ + service + "/"@ + "primary"@;
            &&& work matches RecoveryWorkView::Run(run)
            &&& run.command() == Some("set server "@ + name + " addr "@ + ip + " port "@ + port)
            &&& text::has_part(e.text(), "No such server"@) ==> run.after(Err(e)).command() == Some(
                "add server "@ + name + " "@ + (ip + seq![':'] + port),
            )
            &&& run.after(Ok(first)).command() == Some(
                "set weight "@ + name + " "@ + text::decimal(100),
            )
            &&& run.after(Ok(first)).after(Ok(second)).command() == Some(
                "set server "@ + name + " state "@ + "ready"@,
            )
        }),
{
    let backend = "svc_"@ + service;
    let name = backend + "/"@ + "primary"@;
    let addr = ip + seq![':'] + port;
    proxy::upserting_moves_or_adds(backend, "primary"@, ip, port, 100, e, first, second, first);
    assert("set server "@ + backend + "/"@ + "primary"@ + " addr "@ + ip + " port "@ + port
        =~= "set server "@ + name + " addr "@ + ip + " port "@ + port);
    assert("add server "@ + backend + "/"@ + "primary"@ + " "@ + addr =~= "add server "@ + name
        + " "@ + addr);
    assert("set weight "@ + backend + "/"@ + "primary"@ + " "@ + text::decimal(100)
        =~= "set weight "@ + name + " "@ + text::decimal(100));
    assert("set server "@ + backend + "/"@ + "primary"@ + " state "@ + "ready"@ =~= "set server "@
        + name + " state "@ + "ready"@);
}

/// Things to do, and what they take, are shown as they are, and lists of them in their
/// order.
pub proof fn plans_are_shown(list: Seq<RecoveryStep>, i: int, work: RecoveryWork)
    requires
        0 <= i < list.len(),
    ensures
        recovery::step_views(list).len() == list.len(),
        recovery::step_views(list)[i] == list[i]@,
        match list[i] {
            RecoveryStep::EnsureConfig { service, domain } => list[i]@ == (
            RecoveryStepView::EnsureConfig { service: service@, domain: domain@ }),
            RecoveryStep::Settle(ms) => list[i]@ == RecoveryStepView::Settle(ms),
            RecoveryStep::UpsertVolunteer { id, addr } => list[i]@ == (
            RecoveryStepView::UpsertVolunteer { id, addr: addr@ }),
            RecoveryStep::RestoreServer { service, id, addr } => list[i]@ == (
            RecoveryStepView::RestoreServer { service: service@, id, addr: addr@ }),
        },
        match work {
            RecoveryWork::Edit(edit) => work@ == RecoveryWorkView::Edit(edit@),
            RecoveryWork::Wait(ms) => work@ == RecoveryWorkView::Wait(ms),
            RecoveryWork::Run(run) => work@ == RecoveryWorkView::Run(run@),
        },
{
}

/// How long the registrar waits, in seconds and milliseconds.
pub proof fn waits_are_as_long_as_they_say()
    ensures
        recovery::RECOVERY_SETTLE_MS == 1000,
        recovery::SOCKET_WAIT_MS == 500,
        recovery::SOCKET_ATTEMPTS == 30,
        recovery::RECOVERY_WEIGHT == 1,
        churn::CHECK_INTERVAL_SECS == 15,
        state::HEARTBEAT_INTERVAL_SECS == 15,
        state::HEARTBEAT_TIMEOUT_SECS == 45,
        haproxy::PRIMARY_WEIGHT == 100,
{
}

// ── calls ───────────────────────────────────────────────────────────────────
/// A volunteer is written down column by column.
pub proof fn written_rows_have_all_columns(v: VolunteerState, row: DbRow)
    requires
        call_ensures(db::to_row, (&v,), row),
    ensures
        row.id@ == ids::hyphenated_of(v.id),
        row.hostname@ == v.info.hostname@,
        row.os@ == v.info.os@,
        row.arch@ == v.info.arch@,
        row.cpu_cores == v.info.cpu_cores,
        row.cpu_model@ == v.info.cpu_model@,
        v.info.memory_total_mb <= i64::MAX ==> row.memory_total_mb == v.info.memory_total_mb,
        v.info.disk_free_gb <= i64::MAX ==> row.disk_free_gb == v.info.disk_free_gb,
        row.docker_version@ == v.info.docker_version@,
        row.tunnel_version@ == v.info.tunnel_version@,
        row.service_addr@ == v.info.service_addr@,
        row.cpu_pct == v.metrics.cpu_pct,
        row.mem_pct == v.metrics.mem_pct,
        row.load_avg == v.metrics.load_avg,
        row.active_requests == v.metrics.active_requests,
        row.score == v.metrics.score,
        row.enrolled_at@ == clock::rfc3339_of(v.enrolled_at@.secs, v.enrolled_at@.nanos),
        row.last_heartbeat@ == clock::rfc3339_of(v.last_heartbeat@.secs, v.last_heartbeat@.nanos),
{
    volunteers_are_written_column_by_column(row, v@);
}

/// A row is read column by column.
pub proof fn read_rows_have_all_columns(row: DbRow, read: Result<VolunteerState, RowError>)
    requires
        call_ensures(db::from_row, (&row,), read),
    ensures
        read is Ok <==> ids::id_of(row.id@) is Some && clock::instant_of(row.enrolled_at@) is Some
            && clock::instant_of(row.last_heartbeat@) is Some,
        read matches Ok(v) ==> {
            &&& ids::id_of(row.id@) == Some(v.id)
            &&& v.info.hostname@ == row.hostname@
            &&& v.info.os@ == row.os@
            &&& v.info.arch@ == row.arch@
            &&& 0 <= row.cpu_cores <= u32::MAX ==> v.info.cpu_cores == row.cpu_cores
            &&& v.info.cpu_model@ == row.cpu_model@
            &&& 0 <= row.memory_total_mb ==> v.info.memory_total_mb == row.memory_total_mb
            &&& 0 <= row.disk_free_gb ==> v.info.disk_free_gb == row.disk_free_gb
            &&& v.info.docker_version@ == row.docker_version@
            &&& v.info.tunnel_version@ == row.tunnel_version@
            &&& v.info.service_addr@ == row.service_addr@
            &&& v.metrics.cpu_pct == row.cpu_pct
            &&& v.metrics.mem_pct == row.mem_pct
            &&& v.metrics.load_avg == row.load_avg
            &&& 0 <= row.active_requests <= u32::MAX ==> v.metrics.active_requests
                == row.active_requests
            &&& v.metrics.score == row.score
            &&& clock::instant_of(row.enrolled_at@) == Some(
                (v.enrolled_at@.secs, v.enrolled_at@.nanos),
            )
            &&& clock::instant_of(row.last_heartbeat@) == Some(
                (v.last_heartbeat@.secs, v.last_heartbeat@.nanos),
            )
            &&& v.assigned_service is None
        },
{
    rows_are_read_where_they_can_be(row);
    if read is Ok {
        rows_are_read_column_by_column(row);
        let v = read->Ok_0;
        let shown = v@;
        assert(shown.info == v.info@);
        assert(shown.metrics == v.metrics);
    }
}

/// An assignment is written column by column.
pub proof fn written_assignments_have_all_columns(
    id: u128,
    a: ServiceAssignment,
    row: AssignmentRow,
    key: String,
)
    requires
        call_ensures(db::to_assignment_row, (id, &a), row),
        call_ensures(db::row_key, (id,), key),
    ensures
        row.volunteer_id@ == ids::hyphenated_of(id),
        row.service_name@ == a.service_name@,
        row.domain@ == a.domain@,
        row.image@ == a.image@,
        row.service_port == a.service_port,
        row.assigned_at@ == clock::rfc3339_of(a.assigned_at@.secs, a.assigned_at@.nanos),
        key@ == row.volunteer_id@,
{
    assignments_are_kept_column_by_column(row, id, a@);
}

/// Every row that can be read is among those that were loaded, with all that it says and
/// with the first assignment that is its own.
pub proof fn all_readable_rows_are_loaded(
    rows: Vec<DbRow>,
    assignments: Vec<AssignmentRow>,
    list: Vec<VolunteerState>,
    i: int,
) -> (k: int)
    requires
        call_ensures(db::load_all, (&rows, &assignments), list),
        0 <= i < rows@.len(),
        ids::id_of(rows@[i].id@) is Some,
        clock::instant_of(rows@[i].enrolled_at@) is Some,
        clock::instant_of(rows@[i].last_heartbeat@) is Some,
    ensures
        0 <= k < list@.len(),
        Some(list@[k].id) == ids::id_of(rows@[i].id@),
        list@[k].info.hostname@ == rows@[i].hostname@,
        list@[k].info.service_addr@ == rows@[i].service_addr@,
        list@[k]@.assigned_service == db::first_assignment(
            db::assignment_rows(assignments@),
            list@[k].id,
        ),
{
    let shown = db::row_views(rows@);
    let kept = db::assignment_rows(assignments@);
    rows_are_shown(rows@, assignments@, i);
    rows_are_read_where_they_can_be(rows@[i]);
    rows_are_read_column_by_column(rows@[i]);
    let k = readable_rows_are_loaded(shown, kept, shown.len(), i);
    let views = state::volunteer_views(list@);
    assert(views == db::loaded(shown, kept, shown.len()));
    assert(views.len() == list@.len());
    assert(views[k] == list@[k]@);
    k
}

/// What is found on record under a hostname has that hostname, and where some row with
/// that hostname can be read something is found.
pub proof fn records_are_found_by_hostname(
    rows: Vec<DbRow>,
    assignments: Vec<AssignmentRow>,
    hostname: &str,
    known: Option<KnownNode>,
    i: int,
)
    requires
        call_ensures(db::find_by_hostname, (&rows, &assignments, hostname), known),
        0 <= i < rows@.len(),
        ids::id_of(rows@[i].id@) is Some,
        clock::instant_of(rows@[i].enrolled_at@) is Some,
        clock::instant_of(rows@[i].last_heartbeat@) is Some,
        rows@[i].hostname@ == hostname@,
    ensures
        known is Some,
        exists|j: int|
            0 <= j < rows@.len() && (#[trigger] rows@[j]).hostname@ == hostname@ && ids::id_of(
                rows@[j].id@,
            ) == Some(known->0.id),
        known->0@.assignment == db::first_assignment(
            db::assignment_rows(assignments@),
            known->0.id,
        ),
{
    let shown = db::row_views(rows@);
    let kept = db::assignment_rows(assignments@);
    rows_are_shown(rows@, assignments@, i);
    rows_are_read_where_they_can_be(rows@[i]);
    rows_are_read_column_by_column(rows@[i]);
    db::records_have_the_hostname(shown, kept, hostname@);
    assert(db::volunteer_of(shown[i]) is Ok);
    assert(db::record_of(shown, kept, hostname@) is Some);
    let id = known->0.id;
    let j = choose|j: int|
        0 <= j < shown.len() && db::volunteer_of(#[trigger] shown[j]) is Ok && shown[j].hostname
            == hostname@ && ids::id_of(shown[j].id) == Some(id);
    rows_are_shown(rows@, assignments@, j);
    assert(rows@[j].hostname@ == hostname@);
}

/// What is planned for the volunteers that are back is their plan, and what it takes is
/// started as it is stated.
pub proof fn plans_are_started(
    list: Vec<VolunteerState>,
    plan: Vec<RecoveryStep>,
    step: RecoveryStep,
    work: RecoveryWork,
)
    requires
        call_ensures(recovery::plan_recovery, (&list,), plan),
        call_ensures(RecoveryStep::start, (&step,), work),
    ensures
        recovery::step_views(plan@) == recovery::recovery_plan(state::volunteer_views(list@)),
        work@ == step@.work(),
        state::volunteer_views(list@).len() == list@.len(),
        forall|i: int|
            0 <= i < list@.len() ==> #[trigger] state::volunteer_views(list@)[i] == list@[i]@,
{
}

} // verus!
