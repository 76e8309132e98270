//! Whole tasks and whole runs, followed through the outcomes of their
//! operations, and what holds of them whatever those outcomes are.

use crate::action::{dirs_settled, ActionView};
use crate::config::{ConfigItemView, ConfigView, Permissions, WorkMode};
use crate::error::{ErrorView, IoErrorKind, IoFailureView};
use crate::path::{is_rooted, path_join, path_parent};
use crate::run::{
    run_next, run_start, task_next, task_start, PendingView, ReportView, Stage, TaskStepView,
};
use vstd::prelude::*;

verus! {

/// What became of a task: the operations that were asked for, in order, and
/// how the task ended, if it has ended.
pub struct TaskTrace {
    pub actions: Seq<ActionView>,
    pub result: Option<Result<(), ErrorView>>,
}

/// A task followed from `step` on. Each outcome in `outcomes` answers the
/// operation that was asked for last. The task stops where it ends or where
/// the outcomes run out.
pub open spec fn task_trace_from(
    work_mode: WorkMode,
    item: ConfigItemView,
    cwd: Result<Seq<char>, IoFailureView>,
    step: TaskStepView,
    outcomes: Seq<Result<(), IoFailureView>>,
) -> TaskTrace
    decreases outcomes.len(),
{
    match step {
        TaskStepView::Finished(result) => TaskTrace { actions: Seq::empty(), result: Some(result) },
        TaskStepView::Perform(stage, action) => if outcomes.len() == 0 {
            TaskTrace { actions: seq![action], result: None }
        } else {
            let rest = task_trace_from(
                work_mode,
                item,
                cwd,
                task_next(work_mode, item, cwd, stage, outcomes[0]),
                outcomes.drop_first(),
            );
            TaskTrace { actions: seq![action] + rest.actions, result: rest.result }
        },
    }
}

/// A task followed from its beginning.
pub open spec fn task_trace(
    work_mode: WorkMode,
    item: ConfigItemView,
    cwd: Result<Seq<char>, IoFailureView>,
    outcomes: Seq<Result<(), IoFailureView>>,
) -> TaskTrace {
    task_trace_from(work_mode, item, cwd, task_start(item), outcomes)
}

/// The operations of a task in which nothing fails: the directories, the
/// link, and the permission bits where any are configured.
pub open spec fn full_script(item: ConfigItemView, link: ActionView) -> Seq<ActionView> {
    let head = seq![ActionView::CreateDirAll { path: path_parent(item.dst) }, link];
    match item.permission_action() {
        Some(action) => head.push(action),
        None => head,
    }
}

/// A task ends in success only after each of its operations was asked for
/// and did not fail: the directories above the destination (where "there
/// already" is no failure), then the link in the configured mode, then the
/// permission bits where any are configured, and nothing else.
pub proof fn lemma_success_ran_the_full_script(
    work_mode: WorkMode,
    item: ConfigItemView,
    cwd: Result<Seq<char>, IoFailureView>,
    outcomes: Seq<Result<(), IoFailureView>>,
)
    requires
        task_trace(work_mode, item, cwd, outcomes).result == Some(Ok::<(), ErrorView>(())),
    ensures
        item.link_action(work_mode, cwd) is Ok,
        task_trace(work_mode, item, cwd, outcomes).actions == full_script(
            item,
            item.link_action(work_mode, cwd)->Ok_0,
        ),
        outcomes.len() >= full_script(item, item.link_action(work_mode, cwd)->Ok_0).len(),
        dirs_settled(outcomes[0]) is Ok,
        outcomes[1] is Ok,
        item.permission is Some ==> outcomes[2] is Ok,
{
    reveal_with_fuel(task_trace_from, 5);
    let t = task_trace(work_mode, item, cwd, outcomes);
    assert(outcomes.len() > 0);
    let o1 = outcomes.drop_first();
    assert(o1.len() > 0);
    assert(o1[0] == outcomes[1]);
    let o2 = o1.drop_first();
    if item.permission is Some {
        assert(o2.len() > 0);
        assert(o2[0] == outcomes[2]);
    }
    assert(t.actions =~= full_script(item, item.link_action(work_mode, cwd)->Ok_0));
}

/// In hard-link mode a task that ends in success has asked for a hard link
/// from its source to its destination, both as they stand, and that link
/// was made.
pub proof fn lemma_hard_link_joins_src_and_dst(
    item: ConfigItemView,
    cwd: Result<Seq<char>, IoFailureView>,
    outcomes: Seq<Result<(), IoFailureView>>,
)
    requires
        task_trace(WorkMode::HardLink, item, cwd, outcomes).result == Some(
            Ok::<(), ErrorView>(()),
        ),
    ensures
        task_trace(WorkMode::HardLink, item, cwd, outcomes).actions[1] == (ActionView::HardLink {
            src: item.src,
            dst: item.dst,
        }),
        outcomes[1] is Ok,
{
    lemma_success_ran_the_full_script(WorkMode::HardLink, item, cwd, outcomes);
}

/// In symbolic-link mode a task that ends in success has asked for a link
/// at its destination that points to the source as it stands, where the
/// source starts at the root, and to the source resolved against the current
/// directory otherwise; and that link was made.
pub proof fn lemma_sym_link_points_to_resolved_src(
    item: ConfigItemView,
    cwd: Result<Seq<char>, IoFailureView>,
    outcomes: Seq<Result<(), IoFailureView>>,
)
    requires
        task_trace(WorkMode::SymLink, item, cwd, outcomes).result == Some(Ok::<(), ErrorView>(())),
    ensures
        is_rooted(item.src) || cwd is Ok,
        task_trace(WorkMode::SymLink, item, cwd, outcomes).actions[1] == (ActionView::SymLink {
            src: if is_rooted(item.src) {
                item.src
            } else {
                path_join(cwd->Ok_0, item.src)
            },
            dst: item.dst,
        }),
        outcomes[1] is Ok,
{
    lemma_success_ran_the_full_script(WorkMode::SymLink, item, cwd, outcomes);
}

/// A task with permission bits that ends in success has, as its last
/// operation, set exactly those bits on its destination.
pub proof fn lemma_success_has_set_the_permission(
    work_mode: WorkMode,
    item: ConfigItemView,
    cwd: Result<Seq<char>, IoFailureView>,
    outcomes: Seq<Result<(), IoFailureView>>,
    mode: u32,
)
    requires
        item.permission == Some(mode),
        task_trace(work_mode, item, cwd, outcomes).result == Some(Ok::<(), ErrorView>(())),
    ensures
        task_trace(work_mode, item, cwd, outcomes).actions.len() == 3,
        task_trace(work_mode, item, cwd, outcomes).actions[2] == (ActionView::SetPermissions {
            path: item.dst,
            permission: Permissions { mode },
        }),
        outcomes[2] is Ok,
{
    lemma_success_ran_the_full_script(work_mode, item, cwd, outcomes);
}

/// A task without permission bits never asks for any to be set, however its
/// operations end.
pub proof fn lemma_no_permission_is_never_set(
    work_mode: WorkMode,
    item: ConfigItemView,
    cwd: Result<Seq<char>, IoFailureView>,
    outcomes: Seq<Result<(), IoFailureView>>,
)
    requires
        item.permission is None,
    ensures
        forall|i: int|
            0 <= i < task_trace(work_mode, item, cwd, outcomes).actions.len() ==> !(
            #[trigger] task_trace(work_mode, item, cwd, outcomes).actions[i]
                is SetPermissions),
{
    reveal_with_fuel(task_trace_from, 5);
    let t = task_trace(work_mode, item, cwd, outcomes);
    assert(t.actions.len() <= 2);
    assert(t.actions[0] is CreateDirAll);
    if t.actions.len() == 2 {
        assert(!(t.actions[1] is SetPermissions));
    }
}

/// Every task begins with the creation of the directories above its
/// destination, so that a destination whose directory is missing can still
/// be linked.
pub proof fn lemma_task_begins_with_the_directories(
    work_mode: WorkMode,
    item: ConfigItemView,
    cwd: Result<Seq<char>, IoFailureView>,
    outcomes: Seq<Result<(), IoFailureView>>,
)
    ensures
        task_trace(work_mode, item, cwd, outcomes).actions.len() >= 1,
        task_trace(work_mode, item, cwd, outcomes).actions[0] == (ActionView::CreateDirAll {
            path: path_parent(item.dst),
        }),
{
    reveal_with_fuel(task_trace_from, 2);
}

/// Directories that were there already are no failure: a task whose first
/// operation fails in that way goes on exactly as if it had succeeded.
pub proof fn lemma_existing_directories_are_no_failure(
    work_mode: WorkMode,
    item: ConfigItemView,
    cwd: Result<Seq<char>, IoFailureView>,
    outcomes: Seq<Result<(), IoFailureView>>,
)
    requires
        outcomes.len() >= 1,
        outcomes[0] is Err,
        outcomes[0]->Err_0.kind == IoErrorKind::AlreadyExists,
    ensures
        task_trace(work_mode, item, cwd, outcomes) == task_trace(
            work_mode,
            item,
            cwd,
            outcomes.update(0, Ok(())),
        ),
{
    reveal_with_fuel(task_trace_from, 2);
    assert(outcomes.update(0, Ok(())).drop_first() =~= outcomes.drop_first());
}

/// Success is owed where nothing stands in the way: if the link's target
/// can be named, the directories are made or were there, the link does not
/// fail, and the permission bits, where any are configured, do not fail
/// either, the task ends in success.
pub proof fn lemma_task_succeeds_where_its_operations_do(
    work_mode: WorkMode,
    item: ConfigItemView,
    cwd: Result<Seq<char>, IoFailureView>,
    outcomes: Seq<Result<(), IoFailureView>>,
)
    requires
        item.link_action(work_mode, cwd) is Ok,
        outcomes.len() >= full_script(item, item.link_action(work_mode, cwd)->Ok_0).len(),
        dirs_settled(outcomes[0]) is Ok,
        outcomes[1] is Ok,
        item.permission is Some ==> outcomes[2] is Ok,
    ensures
        task_trace(work_mode, item, cwd, outcomes).result == Some(Ok::<(), ErrorView>(())),
{
    reveal_with_fuel(task_trace_from, 5);
    let o1 = outcomes.drop_first();
    assert(o1[0] == outcomes[1]);
    let o2 = o1.drop_first();
    if item.permission is Some {
        assert(o2[0] == outcomes[2]);
    }
}

/// What became of a run: the operations that were asked for and the
/// reports that were made, both in order, and the operation that the run
/// waits for, if it is not over.
pub struct RunTrace {
    pub asked: Seq<PendingView>,
    pub reports: Seq<ReportView>,
    pub pending: Option<PendingView>,
}

/// A run followed from the operation `pending` on. Each outcome in
/// `outcomes` answers the operation that was asked for last. The run stops
/// where it is over or where the outcomes run out.
pub open spec fn run_trace_from(
    config: ConfigView,
    cwd: Result<Seq<char>, IoFailureView>,
    pending: Option<PendingView>,
    outcomes: Seq<Result<(), IoFailureView>>,
) -> RunTrace
    decreases outcomes.len(),
{
    match pending {
        None => RunTrace { asked: Seq::empty(), reports: Seq::empty(), pending: None },
        Some(p) => if outcomes.len() == 0 {
            RunTrace { asked: seq![p], reports: Seq::empty(), pending }
        } else {
            let step = run_next(config, cwd, p.index, p.stage, outcomes[0]);
            let rest = run_trace_from(config, cwd, step.next, outcomes.drop_first());
            RunTrace {
                asked: seq![p] + rest.asked,
                reports: match step.report {
                    Some(r) => seq![r] + rest.reports,
                    None => rest.reports,
                },
                pending: rest.pending,
            }
        },
    }
}

/// A run followed from its beginning, on a configuration whose paths are
/// fixed up.
pub open spec fn run_trace(
    config: ConfigView,
    cwd: Result<Seq<char>, IoFailureView>,
    outcomes: Seq<Result<(), IoFailureView>>,
) -> RunTrace {
    run_trace_from(config, cwd, run_start(config, 0), outcomes)
}

/// The number of tasks that lie before the operation `pending`: all of
/// them, where the run is over.
pub open spec fn tasks_before(config: ConfigView, pending: Option<PendingView>) -> int {
    match pending {
        Some(p) => p.index,
        None => config.tasks.len() as int,
    }
}

/// From wherever a run stands, it reports the tasks that it passes, each
/// once and in order, whether they fail or not.
pub proof fn lemma_run_reports_what_it_passes(
    config: ConfigView,
    cwd: Result<Seq<char>, IoFailureView>,
    pending: Option<PendingView>,
    outcomes: Seq<Result<(), IoFailureView>>,
)
    requires
        pending is Some ==> 0 <= pending->0.index < config.tasks.len(),
    ensures
        ({
            let trace = run_trace_from(config, cwd, pending, outcomes);
            let first = tasks_before(config, pending);
            let end = tasks_before(config, trace.pending);
            &&& trace.pending is Some ==> 0 <= trace.pending->0.index < config.tasks.len()
            &&& first <= end
            &&& trace.reports.len() == end - first
            &&& forall|k: int|
                0 <= k < trace.reports.len() ==> (#[trigger] trace.reports[k]).name
                    == config.tasks[first + k].name
        }),
    decreases outcomes.len(),
{
    if pending is Some && outcomes.len() > 0 {
        let p = pending->0;
        let step = run_next(config, cwd, p.index, p.stage, outcomes[0]);
        lemma_run_reports_what_it_passes(config, cwd, step.next, outcomes.drop_first());
        let rest = run_trace_from(config, cwd, step.next, outcomes.drop_first());
        let trace = run_trace_from(config, cwd, pending, outcomes);
        if step.report is Some {
            assert(trace.reports == seq![step.report->0] + rest.reports);
            assert forall|k: int| 0 <= k < trace.reports.len() implies (
            #[trigger] trace.reports[k]).name == config.tasks[p.index + k].name by {
                if k > 0 {
                    assert(trace.reports[k] == rest.reports[k - 1]);
                }
            }
        }
    }
}

/// A run reports every task that it has left behind, once and in the order
/// of the configuration, under the task's name. A failure never ends the
/// run: once the run is over, every task has its report.
pub proof fn lemma_run_reports_every_task(
    config: ConfigView,
    cwd: Result<Seq<char>, IoFailureView>,
    outcomes: Seq<Result<(), IoFailureView>>,
)
    ensures
        run_trace(config, cwd, outcomes).reports.len() == tasks_before(
            config,
            run_trace(config, cwd, outcomes).pending,
        ),
        run_trace(config, cwd, outcomes).pending is None ==> run_trace(
            config,
            cwd,
            outcomes,
        ).reports.len() == config.tasks.len(),
        forall|k: int|
            0 <= k < run_trace(config, cwd, outcomes).reports.len() ==> (#[trigger] run_trace(
                config,
                cwd,
                outcomes,
            ).reports[k]).name == config.tasks[k].name,
{
    lemma_run_reports_what_it_passes(config, cwd, run_start(config, 0), outcomes);
}

/// The operation `pending` is one that its task configures: the creation
/// of the directory above the task's destination, the task's link in the
/// configured mode, or the setting of the task's permission bits.
pub open spec fn is_configured(
    config: ConfigView,
    cwd: Result<Seq<char>, IoFailureView>,
    pending: PendingView,
) -> bool {
    &&& 0 <= pending.index < config.tasks.len()
    &&& match pending.stage {
        Stage::Dirs => pending.action == (ActionView::CreateDirAll {
            path: path_parent(config.tasks[pending.index].item.dst),
        }),
        Stage::Link => config.tasks[pending.index].item.link_action(config.work_mode, cwd) == Ok::<
            ActionView,
            ErrorView,
        >(pending.action),
        Stage::Permission => config.tasks[pending.index].item.permission_action() == Some(
            pending.action,
        ),
    }
}

/// From wherever a run stands, it asks for nothing but what its tasks
/// configure.
pub proof fn lemma_run_asks_what_is_configured(
    config: ConfigView,
    cwd: Result<Seq<char>, IoFailureView>,
    pending: Option<PendingView>,
    outcomes: Seq<Result<(), IoFailureView>>,
)
    requires
        pending is Some ==> is_configured(config, cwd, pending->0),
    ensures
        forall|k: int|
            0 <= k < run_trace_from(config, cwd, pending, outcomes).asked.len() ==> is_configured(
                config,
                cwd,
                #[trigger] run_trace_from(config, cwd, pending, outcomes).asked[k],
            ),
    decreases outcomes.len(),
{
    if pending is Some && outcomes.len() > 0 {
        let p = pending->0;
        let step = run_next(config, cwd, p.index, p.stage, outcomes[0]);
        lemma_run_asks_what_is_configured(config, cwd, step.next, outcomes.drop_first());
        let rest = run_trace_from(config, cwd, step.next, outcomes.drop_first());
        let trace = run_trace_from(config, cwd, pending, outcomes);
        assert(trace.asked == seq![p] + rest.asked);
        assert forall|k: int| 0 <= k < trace.asked.len() implies is_configured(
            config,
            cwd,
            #[trigger] trace.asked[k],
        ) by {
            if k > 0 {
                assert(trace.asked[k] == rest.asked[k - 1]);
            }
        }
    }
}

/// A run asks for nothing but what its tasks configure, whatever the
/// outcomes are. In particular it sets permission bits only on the
/// destination of a task that configures them, and only to those bits.
pub proof fn lemma_run_touches_only_what_is_configured(
    config: ConfigView,
    cwd: Result<Seq<char>, IoFailureView>,
    outcomes: Seq<Result<(), IoFailureView>>,
)
    ensures
        forall|k: int|
            0 <= k < run_trace(config, cwd, outcomes).asked.len() ==> is_configured(
                config,
                cwd,
                #[trigger] run_trace(config, cwd, outcomes).asked[k],
            ),
        forall|k: int|
            0 <= k < run_trace(config, cwd, outcomes).asked.len() && (#[trigger] run_trace(
                config,
                cwd,
                outcomes,
            ).asked[k]).action is SetPermissions ==> {
                let asked = run_trace(config, cwd, outcomes).asked[k];
                let item = config.tasks[asked.index].item;
                &&& item.permission is Some
                &&& asked.action == (ActionView::SetPermissions {
                    path: item.dst,
                    permission: Permissions { mode: item.permission->0 },
                })
            },
{
    lemma_run_asks_what_is_configured(config, cwd, run_start(config, 0), outcomes);
    assert forall|k: int|
        0 <= k < run_trace(config, cwd, outcomes).asked.len() && (#[trigger] run_trace(
            config,
            cwd,
            outcomes,
        ).asked[k]).action is SetPermissions implies {
        let asked = run_trace(config, cwd, outcomes).asked[k];
        let item = config.tasks[asked.index].item;
        &&& item.permission is Some
        &&& asked.action == (ActionView::SetPermissions {
            path: item.dst,
            permission: Permissions { mode: item.permission->0 },
        })
    } by {
        let asked = run_trace(config, cwd, outcomes).asked[k];
        assert(is_configured(config, cwd, asked));
    }
}

/// The task that follows a failed one is begun all the same: whatever the
/// outcome that ends a task, the run goes on with the first operation of the
/// task behind it.
pub proof fn lemma_failure_does_not_stop_the_run(
    config: ConfigView,
    cwd: Result<Seq<char>, IoFailureView>,
    index: int,
    stage: Stage,
    outcome: Result<(), IoFailureView>,
)
    requires
        0 <= index < config.tasks.len(),
        run_next(config, cwd, index, stage, outcome).report is Some,
    ensures
        run_next(config, cwd, index, stage, outcome).next == run_start(config, index + 1),
        index + 1 < config.tasks.len() ==> run_next(config, cwd, index, stage, outcome).next
            is Some,
        run_next(config, cwd, index, stage, outcome).report->0.name == config.tasks[index].name,
{
}

} // verus!
