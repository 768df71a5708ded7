//! Properties that hold across the tracker's operations.

use crate::domain::data::{
    DataView, add_project_view, archive_view, checkpoint_view, delete_project_view,
    delete_task_view, end_view, id_in_use, is_next_task_id, lemma_project_index, note_last_view,
    project_index, project_name_of, recover_view, rename_view, start_view, toggle_view,
    update_note_view,
};
use crate::domain::project::ProjectView;
use crate::domain::task::{
    ActiveView, TaskView, checkpointed, completed, duration, elapsed, fresh_active, paused_at,
    recovered, toggle_fits, toggled,
};
use vstd::prelude::*;

verus! {

// ----- time accounting -----
/// Time spent paused is not counted: pausing at `paused` and resuming at
/// `resumed` lowers the elapsed time at any later moment by exactly the
/// paused interval.
pub proof fn law_paused_interval_not_counted(a: ActiveView, paused: i64, resumed: i64, t: int)
    requires
        !a.paused,
        toggle_fits(toggled(a, paused), resumed),
    ensures
        elapsed(toggled(toggled(a, paused), resumed), t) == elapsed(a, t) - (resumed - paused),
{
}

/// While a task is paused its elapsed time does not grow.
pub proof fn law_paused_time_is_frozen(a: ActiveView, t: int, u: int)
    requires
        a.paused,
    ensures
        elapsed(a, t) == elapsed(a, u),
{
}

/// Recording a checkpoint changes no elapsed time.
pub proof fn law_checkpoint_keeps_elapsed(a: ActiveView, timestamp: i64, t: int)
    ensures
        elapsed(checkpointed(a, timestamp), t) == elapsed(a, t),
{
}

/// Finishing a task at `timestamp` records exactly the time it had accumulated by then.
pub proof fn law_finished_duration_is_elapsed(a: ActiveView, timestamp: i64)
    ensures
        duration(completed(a, timestamp)) == elapsed(a, timestamp as int),
{
}

/// A task recovered after a restart is as long as the work recorded by its
/// last checkpoint; time after that checkpoint is not counted.
pub proof fn law_recovery_stops_at_checkpoint(a: ActiveView)
    ensures
        duration(recovered(a)) == elapsed(a, a.checkpoint as int),
        recovered(a).ended == a.checkpoint,
{
}

/// A checkpoint at `t` followed by a restart records the work done up to `t`.
pub proof fn law_recovery_after_checkpoint(a: ActiveView, t: i64)
    requires
        !a.paused,
    ensures
        duration(recovered(checkpointed(a, t))) == elapsed(a, t as int),
{
}

// ----- interruption -----
/// Starting a second task freezes the running one exactly as it stood: the
/// interrupted task is paused and, at every later moment, holds the work it
/// had done by the start, which is also what finishing it later records; a
/// task that was already paused is kept as it was.
pub proof fn law_start_freezes_interrupted_work(
    d: DataView,
    project_id: Seq<char>,
    timestamp: i64,
    id: Seq<char>,
    later: int,
    ended: i64,
)
    requires
        d.active is Some,
    ensures
        start_view(d, project_id, timestamp, id).interrupted is Some,
        start_view(d, project_id, timestamp, id).interrupted->0.paused,
        elapsed(start_view(d, project_id, timestamp, id).interrupted->0, later) == elapsed(
            d.active->0,
            timestamp as int,
        ),
        duration(completed(start_view(d, project_id, timestamp, id).interrupted->0, ended))
            == elapsed(d.active->0, timestamp as int),
        d.active->0.paused ==> start_view(d, project_id, timestamp, id).interrupted == d.active,
{
}

/// Starting a secondary task and finishing it records the secondary task and
/// restores the primary task, paused where it was interrupted.
pub proof fn law_interruption_restores_primary(
    d: DataView,
    project_id: Seq<char>,
    started: i64,
    id: Seq<char>,
    ended: i64,
)
    requires
        d.active is Some,
        d.interrupted is None,
    ensures
        ({
            let after = end_view(start_view(d, project_id, started, id), ended);
            &&& after.active == Some(paused_at(d.active.unwrap(), started))
            &&& after.active.unwrap().paused
            &&& after.interrupted is None
            &&& after.tasks == d.tasks.push(
                completed(fresh_active(id, project_id, started), ended),
            )
            &&& after.projects == d.projects
        }),
{
}

/// Starting work when nothing runs, then finishing it, records one task
/// lasting from start to finish and leaves nothing running.
pub proof fn law_start_then_end_records_one_task(
    d: DataView,
    project_id: Seq<char>,
    started: i64,
    id: Seq<char>,
    ended: i64,
)
    requires
        d.active is None,
        d.interrupted is None,
    ensures
        ({
            let after = end_view(start_view(d, project_id, started, id), ended);
            &&& after.active is None
            &&& after.interrupted is None
            &&& after.tasks == d.tasks.push(
                completed(fresh_active(id, project_id, started), ended),
            )
            &&& duration(after.tasks.last()) == ended - started
        }),
{
}

/// The interrupted task is always a paused one.
pub open spec fn interrupted_is_paused(d: DataView) -> bool {
    d.interrupted matches Some(b) ==> b.paused
}

/// Every operation keeps the interrupted task paused.
pub proof fn law_interrupted_stays_paused(
    d: DataView,
    timestamp: i64,
    project_id: Seq<char>,
    id: Seq<char>,
    text: Seq<char>,
)
    requires
        interrupted_is_paused(d),
    ensures
        interrupted_is_paused(start_view(d, project_id, timestamp, id)),
        interrupted_is_paused(end_view(d, timestamp)),
        interrupted_is_paused(recover_view(d)),
        interrupted_is_paused(checkpoint_view(d, timestamp)),
        interrupted_is_paused(toggle_view(d, timestamp)),
        interrupted_is_paused(note_last_view(d, text)),
        interrupted_is_paused(update_note_view(d, id, text)),
        interrupted_is_paused(delete_task_view(d, id)),
        interrupted_is_paused(delete_project_view(d, project_id)),
        interrupted_is_paused(add_project_view(d, project_id, text)),
        interrupted_is_paused(rename_view(d, project_id, text)),
        interrupted_is_paused(archive_view(d, project_id, true)),
        interrupted_is_paused(archive_view(d, project_id, false)),
{
}

// ----- task identity -----
/// No two tasks, completed or running, share an identifier.
pub open spec fn ids_distinct(d: DataView) -> bool {
    &&& forall|i: int, j: int|
        0 <= i < j < d.tasks.len() ==> #[trigger] d.tasks[i].id != #[trigger] d.tasks[j].id
    &&& d.active matches Some(a) ==> forall|i: int|
        0 <= i < d.tasks.len() ==> #[trigger] d.tasks[i].id != a.id
    &&& d.interrupted matches Some(b) ==> forall|i: int|
        0 <= i < d.tasks.len() ==> #[trigger] d.tasks[i].id != b.id
    &&& (d.active is Some && d.interrupted is Some) ==> d.active.unwrap().id
        != d.interrupted.unwrap().id
}

pub open spec fn task_ids_distinct(s: Seq<TaskView>) -> bool {
    forall|i: int, j: int| 0 <= i < j < s.len() ==> #[trigger] s[i].id != #[trigger] s[j].id
}

proof fn lemma_filter_keeps_distinct(s: Seq<TaskView>, p: spec_fn(TaskView) -> bool)
    requires
        task_ids_distinct(s),
    ensures
        task_ids_distinct(s.filter(p)),
        forall|x: TaskView| s.filter(p).contains(x) ==> s.contains(x),
    decreases s.len(),
{
    reveal(Seq::filter);
    if s.len() > 0 {
        let rest = s.drop_last();
        assert(task_ids_distinct(rest)) by {
            assert forall|i: int, j: int| 0 <= i < j < rest.len() implies #[trigger] rest[i].id
                != #[trigger] rest[j].id by {
                assert(rest[i] == s[i] && rest[j] == s[j]);
            }
        }
        lemma_filter_keeps_distinct(rest, p);
        let f = rest.filter(p);
        if p(s.last()) {
            let out = f.push(s.last());
            assert forall|i: int, j: int| 0 <= i < j < out.len() implies #[trigger] out[i].id
                != #[trigger] out[j].id by {
                if j == out.len() - 1 {
                    assert(f.contains(out[i]));
                    assert(rest.contains(out[i]));
                    let k = choose|k: int| 0 <= k < rest.len() && rest[k] == out[i];
                    assert(s[k] == out[i]);
                    assert(s[k].id != s[s.len() - 1].id);
                } else {
                    assert(out[i] == f[i] && out[j] == f[j]);
                }
            }
            assert forall|x: TaskView| out.contains(x) implies s.contains(x) by {
                let k = choose|k: int| 0 <= k < out.len() && out[k] == x;
                if k == out.len() - 1 {
                    assert(s[s.len() - 1] == x);
                } else {
                    assert(f.contains(x));
                    assert(rest.contains(x));
                    let m = choose|m: int| 0 <= m < rest.len() && rest[m] == x;
                    assert(s[m] == x);
                }
            }
        } else {
            assert forall|x: TaskView| f.contains(x) implies s.contains(x) by {
                assert(rest.contains(x));
                let m = choose|m: int| 0 <= m < rest.len() && rest[m] == x;
                assert(s[m] == x);
            }
        }
    }
}

/// Starting a task keeps every identifier unique, since the new identifier is
/// one that nothing used.
pub proof fn law_start_keeps_ids_unique(
    d: DataView,
    project_id: Seq<char>,
    timestamp: i64,
    id: Seq<char>,
)
    requires
        ids_distinct(d),
        is_next_task_id(d, timestamp, id),
    ensures
        ids_distinct(start_view(d, project_id, timestamp, id)),
{
    assert(!id_in_use(d, id));
}

/// Finishing, recovering, checkpointing, pausing, annotating and deleting
/// keep every task identifier unique.
pub proof fn law_operations_keep_ids_unique(
    d: DataView,
    timestamp: i64,
    id: Seq<char>,
    project_id: Seq<char>,
    text: Seq<char>,
)
    requires
        ids_distinct(d),
    ensures
        ids_distinct(end_view(d, timestamp)),
        ids_distinct(recover_view(d)),
        ids_distinct(checkpoint_view(d, timestamp)),
        ids_distinct(toggle_view(d, timestamp)),
        ids_distinct(note_last_view(d, text)),
        ids_distinct(update_note_view(d, id, text)),
        ids_distinct(delete_task_view(d, id)),
        ids_distinct(delete_project_view(d, project_id)),
        ids_distinct(add_project_view(d, project_id, text)),
        ids_distinct(rename_view(d, project_id, text)),
        ids_distinct(archive_view(d, project_id, true)),
        ids_distinct(archive_view(d, project_id, false)),
{
    let e = end_view(d, timestamp);
    if d.active is Some {
        assert forall|i: int, j: int| 0 <= i < j < e.tasks.len() implies #[trigger] e.tasks[i].id
            != #[trigger] e.tasks[j].id by {
            if j == e.tasks.len() - 1 {
                assert(e.tasks[i] == d.tasks[i]);
            }
        }
        if e.active is Some {
            assert forall|i: int| 0 <= i < e.tasks.len() implies #[trigger] e.tasks[i].id
                != e.active.unwrap().id by {
                if i < d.tasks.len() {
                    assert(e.tasks[i] == d.tasks[i]);
                }
            }
        }
    }
    let r = recover_view(d);
    let mid = match d.interrupted {
        Some(b) => d.tasks.push(recovered(b)),
        None => d.tasks,
    };
    assert(task_ids_distinct(mid)) by {
        assert forall|i: int, j: int| 0 <= i < j < mid.len() implies #[trigger] mid[i].id
            != #[trigger] mid[j].id by {
            if j == mid.len() - 1 && d.interrupted is Some {
                assert(mid[i] == d.tasks[i]);
            }
        }
    }
    assert(task_ids_distinct(r.tasks)) by {
        assert forall|i: int, j: int| 0 <= i < j < r.tasks.len() implies #[trigger] r.tasks[i].id
            != #[trigger] r.tasks[j].id by {
            if j == r.tasks.len() - 1 && d.active is Some {
                assert(r.tasks[i] == mid[i]);
                if i < d.tasks.len() {
                    assert(mid[i] == d.tasks[i]);
                }
            } else {
                assert(r.tasks[i] == mid[i] && r.tasks[j] == mid[j]);
            }
        }
    }
    let n = note_last_view(d, text);
    assert forall|i: int| 0 <= i < n.tasks.len() implies #[trigger] n.tasks[i].id == d.tasks[i].id by {}
    let u = update_note_view(d, id, text);
    assert forall|i: int| 0 <= i < u.tasks.len() implies #[trigger] u.tasks[i].id == d.tasks[i].id by {}
    assert(task_ids_distinct(d.tasks));
    let keep = |t: TaskView| t.id != id;
    lemma_filter_keeps_distinct(d.tasks, keep);
    let dt = delete_task_view(d, id);
    assert forall|i: int| 0 <= i < dt.tasks.len() implies (d.active matches Some(a) ==> #[trigger] dt.tasks[i].id != a.id) && (d.interrupted matches Some(b) ==> dt.tasks[i].id != b.id) by {
        let x = dt.tasks[i];
        assert(dt.tasks.contains(x));
        assert(d.tasks.contains(x));
        let m = choose|m: int| 0 <= m < d.tasks.len() && d.tasks[m] == x;
        assert(d.tasks[m].id == x.id);
    }
    let keep_p = |t: TaskView| t.project_id != project_id;
    lemma_filter_keeps_distinct(d.tasks, keep_p);
    let dp = delete_project_view(d, project_id);
    assert forall|i: int| 0 <= i < dp.tasks.len() implies (d.active matches Some(a) ==> #[trigger] dp.tasks[i].id != a.id) && (d.interrupted matches Some(b) ==> dp.tasks[i].id != b.id) by {
        let x = dp.tasks[i];
        assert(dp.tasks.contains(x));
        assert(d.tasks.contains(x));
        let m = choose|m: int| 0 <= m < d.tasks.len() && d.tasks[m] == x;
        assert(d.tasks[m].id == x.id);
    }
}

// ----- project lifecycle -----
/// Archiving or restoring a project keeps all recorded work and every
/// displayed project name.
pub proof fn law_archive_keeps_history(d: DataView, id: Seq<char>, archived: bool, other: Seq<char>)
    ensures
        archive_view(d, id, archived).tasks == d.tasks,
        archive_view(d, id, archived).active == d.active,
        archive_view(d, id, archived).interrupted == d.interrupted,
        project_name_of(archive_view(d, id, archived), other) == project_name_of(d, other),
{
    let a = archive_view(d, id, archived);
    lemma_project_index(d.projects, id);
    lemma_project_index(d.projects, other);
    lemma_project_index(a.projects, other);
    if let Some(k) = project_index(d.projects, other) {
        assert(a.projects[k].id == other);
        assert(crate::domain::data::is_first_project(a.projects, other, k));
    } else {
        assert forall|j: int| 0 <= j < a.projects.len() implies a.projects[j].id != other by {
            assert(a.projects[j].id == d.projects[j].id);
        }
    }
}

/// Restoring an archived project undoes archiving it.
pub proof fn law_unarchive_undoes_archive(d: DataView, id: Seq<char>)
    requires
        project_index(d.projects, id) matches Some(i) ==> !d.projects[i].archived,
    ensures
        archive_view(archive_view(d, id, true), id, false) == d,
{
    let a = archive_view(d, id, true);
    lemma_project_index(d.projects, id);
    lemma_project_index(a.projects, id);
    if let Some(i) = project_index(d.projects, id) {
        assert(crate::domain::data::is_first_project(a.projects, id, i));
        assert(archive_view(a, id, false).projects =~= d.projects);
    } else {
        assert forall|j: int| 0 <= j < a.projects.len() implies a.projects[j].id != id by {}
    }
}

/// Deleting a project removes it together with all of its work, keeps every
/// other task, and its name is then shown as "Deleted project".
pub proof fn law_delete_project_removes_its_work(d: DataView, id: Seq<char>)
    ensures
        ({
            let after = delete_project_view(d, id);
            &&& forall|i: int| 0 <= i < after.projects.len() ==> #[trigger] after.projects[i].id != id
            &&& forall|i: int| 0 <= i < after.tasks.len() ==> #[trigger] after.tasks[i].project_id
                != id
            &&& after.active matches Some(a) ==> a.project_id != id
            &&& after.interrupted matches Some(b) ==> b.project_id != id
            &&& forall|i: int|
                0 <= i < d.tasks.len() && d.tasks[i].project_id != id ==> after.tasks.contains(
                    #[trigger] d.tasks[i],
                )
            &&& project_name_of(after, id) == "Deleted project"@
        }),
{
    let after = delete_project_view(d, id);
    let keep_p = |p: ProjectView| p.id != id;
    let keep_t = |t: TaskView| t.project_id != id;
    broadcast use vstd::seq_lib::group_filter_ensures;

    lemma_project_index(after.projects, id);
    if let Some(k) = project_index(after.projects, id) {
        assert(keep_p(after.projects[k]));
    }
}

/// Deleting a project keeps an interrupted task beside a running one, unless
/// the deleted project is that of the running task alone.
pub proof fn law_delete_project_keeps_interruption_paired(d: DataView, id: Seq<char>)
    requires
        d.interrupted is Some ==> d.active is Some,
        !(d.active is Some && d.active->0.project_id == id && d.interrupted is Some
            && d.interrupted->0.project_id != id),
    ensures
        delete_project_view(d, id).interrupted is Some ==> delete_project_view(d, id).active is Some,
{
}

/// Deleting a task leaves no task with its identifier, so deleting it again
/// changes nothing.
pub proof fn law_delete_task_is_idempotent(d: DataView, id: Seq<char>)
    ensures
        forall|i: int| 0 <= i < delete_task_view(d, id).tasks.len() ==> #[trigger] delete_task_view(
            d,
            id,
        ).tasks[i].id != id,
        delete_task_view(delete_task_view(d, id), id) == delete_task_view(d, id),
{
    let keep = |t: TaskView| t.id != id;
    let once = d.tasks.filter(keep);
    broadcast use vstd::seq_lib::group_filter_ensures;

    lemma_filter_all_kept(once, keep);
    assert(delete_task_view(delete_task_view(d, id), id).tasks =~= once);
}

proof fn lemma_filter_all_kept(s: Seq<TaskView>, p: spec_fn(TaskView) -> bool)
    requires
        forall|i: int| 0 <= i < s.len() ==> p(#[trigger] s[i]),
    ensures
        s.filter(p) == s,
    decreases s.len(),
{
    reveal(Seq::filter);
    if s.len() > 0 {
        lemma_filter_all_kept(s.drop_last(), p);
        assert(s.drop_last().push(s.last()) =~= s);
    }
}

} // verus!
