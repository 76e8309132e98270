//! The decisions of a run, one step at a time.
//!
//! A run never touches the file system itself. It names the next operation,
//! the caller performs it and hands the outcome back, and the run says what
//! follows. A task that fails is reported and the run goes on with the next
//! one: nothing that was linked before is undone, and nothing that comes
//! after is left out.

use crate::action::{
    create_dir_all, created_dir_all, dirs_settled, lookup_view, outcome_view, result_view, Action,
    ActionView,
};
use crate::config::{Config, ConfigItem, ConfigItemView, ConfigView, WorkMode};
use crate::error::{EnvFileError, ErrorView, IoErrorKind, IoFailure, IoFailureView};
use crate::path::{begins_with_tilde, path_parent};
use vstd::prelude::*;
use vstd::string::*;

verus! {

/// The operation of a task whose outcome is awaited.
#[derive(Clone, Copy, Debug, PartialEq, Eq, Structural)]
pub enum Stage {
    /// The directories above the destination are being created.
    Dirs,
    /// The link is being made.
    Link,
    /// The permission bits are being set.
    Permission,
}

/// What a task comes to after an outcome: one more operation, or its end.
#[derive(Debug, PartialEq, Eq)]
pub enum TaskStep {
    Perform(Stage, Action),
    Finished(Result<(), EnvFileError>),
}

/// The mathematical value of a [`TaskStep`].
pub enum TaskStepView {
    Perform(Stage, ActionView),
    Finished(Result<(), ErrorView>),
}

impl View for TaskStep {
    type V = TaskStepView;

    open spec fn view(&self) -> TaskStepView {
        match self {
            TaskStep::Perform(stage, action) => TaskStepView::Perform(*stage, action@),
            TaskStep::Finished(result) => TaskStepView::Finished(result_view(*result)),
        }
    }
}

/// How a task begins: with the directories above its destination.
pub open spec fn task_start(item: ConfigItemView) -> TaskStepView {
    TaskStepView::Perform(Stage::Dirs, ActionView::CreateDirAll { path: path_parent(item.dst) })
}

/// How a task goes on once the operation of `stage` has ended in `outcome`.
///
/// After the directories comes the link, after the link the permission
/// bits where any are configured. The first failure ends the task, except
/// that directories which were there already are no failure.
pub open spec fn task_next(
    work_mode: WorkMode,
    item: ConfigItemView,
    cwd: Result<Seq<char>, IoFailureView>,
    stage: Stage,
    outcome: Result<(), IoFailureView>,
) -> TaskStepView {
    match stage {
        Stage::Dirs => match dirs_settled(outcome) {
            Err(e) => TaskStepView::Finished(Err(e)),
            Ok(_) => match item.link_action(work_mode, cwd) {
                Ok(action) => TaskStepView::Perform(Stage::Link, action),
                Err(e) => TaskStepView::Finished(Err(e)),
            },
        },
        Stage::Link => match outcome {
            Err(f) => TaskStepView::Finished(Err(ErrorView::Io(f))),
            Ok(_) => match item.permission_action() {
                Some(action) => TaskStepView::Perform(Stage::Permission, action),
                None => TaskStepView::Finished(Ok(())),
            },
        },
        Stage::Permission => match outcome {
            Err(f) => TaskStepView::Finished(Err(ErrorView::Io(f))),
            Ok(_) => TaskStepView::Finished(Ok(())),
        },
    }
}

impl Config {
    /// Begins the task `item`: the first operation is always the creation of
    /// the directories above the destination.
    pub fn do_task(&self, item: &ConfigItem) -> (res: TaskStep)
        ensures
            res@ == task_start(item@),
    {
        TaskStep::Perform(Stage::Dirs, create_dir_all(item.dst.as_str()))
    }

    /// Goes on with the task `item` after the operation of `stage` has ended
    /// in `outcome`. `cwd` is what the lookup of the current directory gave.
    pub fn task_step(
        &self,
        item: &ConfigItem,
        stage: Stage,
        outcome: Result<(), IoFailure>,
        cwd: &Result<String, IoFailure>,
    ) -> (res: TaskStep)
        ensures
            res@ == task_next(
                self@.work_mode,
                item@,
                lookup_view(*cwd),
                stage,
                outcome_view(outcome),
            ),
    {
        match stage {
            Stage::Dirs => match created_dir_all(outcome) {
                Err(e) => TaskStep::Finished(Err(e)),
                Ok(()) => match item.link(self.work_mode(), cwd) {
                    Ok(action) => TaskStep::Perform(Stage::Link, action),
                    Err(e) => TaskStep::Finished(Err(e)),
                },
            },
            Stage::Link => match outcome {
                Err(f) => TaskStep::Finished(Err(EnvFileError::IoError(f))),
                Ok(()) => match item.set_permissions() {
                    Some(action) => TaskStep::Perform(Stage::Permission, action),
                    None => TaskStep::Finished(Ok(())),
                },
            },
            Stage::Permission => match outcome {
                Err(f) => TaskStep::Finished(Err(EnvFileError::IoError(f))),
                Ok(()) => TaskStep::Finished(Ok(())),
            },
        }
    }
}

/// How one task ended.
#[derive(Debug, PartialEq, Eq)]
pub struct Report {
    pub name: String,
    pub result: Result<(), EnvFileError>,
}

/// The mathematical value of a [`Report`].
pub struct ReportView {
    pub name: Seq<char>,
    pub result: Result<(), ErrorView>,
}

impl ReportView {
    /// The line that tells the user how the task ended.
    pub open spec fn line(self) -> Seq<char> {
        match self.result {
            Ok(_) => "task "@ + self.name + " success."@,
            Err(e) => "task "@ + self.name + " failed.\n  "@ + e.message(),
        }
    }
}

impl View for Report {
    type V = ReportView;

    open spec fn view(&self) -> ReportView {
        ReportView { name: self.name@, result: result_view(self.result) }
    }
}

impl Report {
    /// Whether the task failed.
    pub fn is_failure(&self) -> (res: bool)
        ensures
            res == (self@.result is Err),
    {
        self.result.is_err()
    }

    /// The line that tells the user how the task ended.
    pub fn line(&self) -> (res: String)
        ensures
            res@ == self@.line(),
    {
        let mut text = String::from_str("task ");
        text.append(self.name.as_str());
        match &self.result {
            Ok(_) => {
                text.append(" success.");
            },
            Err(e) => {
                text.append(" failed.\n  ");
                let message = e.message();
                text.append(message.as_str());
            },
        }
        text
    }
}

/// An operation that a run waits for: the place of its task, the stage of
/// that task, and the operation itself.
#[derive(Debug, PartialEq, Eq)]
pub struct Pending {
    pub index: usize,
    pub stage: Stage,
    pub action: Action,
}

/// The mathematical value of a [`Pending`].
pub struct PendingView {
    pub index: int,
    pub stage: Stage,
    pub action: ActionView,
}

impl View for Pending {
    type V = PendingView;

    open spec fn view(&self) -> PendingView {
        PendingView { index: self.index as int, stage: self.stage, action: self.action@ }
    }
}

/// The value of a pending operation that may be missing.
pub open spec fn pending_view(pending: Option<Pending>) -> Option<PendingView> {
    match pending {
        Some(p) => Some(p@),
        None => None,
    }
}

/// The value of a report that may be missing.
pub open spec fn report_view(report: Option<Report>) -> Option<ReportView> {
    match report {
        Some(r) => Some(r@),
        None => None,
    }
}

/// What a run comes to after an outcome: the report of the task that has
/// just ended, if one has, and the operation to perform next, if any is
/// left. A run without a next operation is over.
#[derive(Debug, PartialEq, Eq)]
pub struct RunStep {
    pub report: Option<Report>,
    pub next: Option<Pending>,
}

/// The mathematical value of a [`RunStep`].
pub struct RunStepView {
    pub report: Option<ReportView>,
    pub next: Option<PendingView>,
}

impl View for RunStep {
    type V = RunStepView;

    open spec fn view(&self) -> RunStepView {
        RunStepView { report: report_view(self.report), next: pending_view(self.next) }
    }
}

/// The first operation of the task at place `index`, or nothing where the
/// configuration has no such task.
pub open spec fn run_start(config: ConfigView, index: int) -> Option<PendingView> {
    if 0 <= index < config.tasks.len() {
        Some(
            PendingView {
                index,
                stage: Stage::Dirs,
                action: ActionView::CreateDirAll { path: path_parent(config.tasks[index].item.dst) },
            },
        )
    } else {
        None
    }
}

/// How a run goes on once the operation of `stage`, for the task at place
/// `index`, has ended in `outcome`.
///
/// While the task goes on, the run stays with it. Once it has ended, however
/// it ended, the run reports it and begins the task behind it.
pub open spec fn run_next(
    config: ConfigView,
    cwd: Result<Seq<char>, IoFailureView>,
    index: int,
    stage: Stage,
    outcome: Result<(), IoFailureView>,
) -> RunStepView {
    if 0 <= index < config.tasks.len() {
        match task_next(config.work_mode, config.tasks[index].item, cwd, stage, outcome) {
            TaskStepView::Perform(then, action) => RunStepView {
                report: None,
                next: Some(PendingView { index, stage: then, action }),
            },
            TaskStepView::Finished(result) => RunStepView {
                report: Some(ReportView { name: config.tasks[index].name, result }),
                next: run_start(config, index + 1),
            },
        }
    } else {
        RunStepView { report: None, next: None }
    }
}

/// The step after the operation of `stage`, for the task at place `index`,
/// has ended in `outcome` has to know the current directory: the directories
/// are ready, and the link that comes next needs it.
pub open spec fn reads_current_dir(
    config: ConfigView,
    index: int,
    stage: Stage,
    outcome: Result<(), IoFailureView>,
) -> bool {
    &&& 0 <= index < config.tasks.len()
    &&& stage == Stage::Dirs
    &&& dirs_settled(outcome) is Ok
    &&& config.tasks[index].item.needs_current_dir(config.work_mode)
}

/// The current directory bears on a step only where the step needs it:
/// elsewhere the run goes on in the same way whatever the lookup gave.
pub proof fn lemma_step_reads_current_dir_where_needed(
    config: ConfigView,
    cwd: Result<Seq<char>, IoFailureView>,
    other: Result<Seq<char>, IoFailureView>,
    index: int,
    stage: Stage,
    outcome: Result<(), IoFailureView>,
)
    requires
        !reads_current_dir(config, index, stage, outcome),
    ensures
        run_next(config, cwd, index, stage, outcome) == run_next(
            config,
            other,
            index,
            stage,
            outcome,
        ),
{
}

impl Config {
    /// The first operation of the task at place `index`, if there is such a
    /// task.
    fn begin(&self, index: usize) -> (res: Option<Pending>)
        ensures
            pending_view(res) == run_start(self@, index as int),
    {
        match self.task(index) {
            Some(task) => Some(
                Pending {
                    index,
                    stage: Stage::Dirs,
                    action: create_dir_all(task.item.dst.as_str()),
                },
            ),
            None => None,
        }
    }

    /// Begins a run: fixes up the paths of every task, then names the first
    /// operation of the first task, or nothing where there is no task.
    ///
    /// `home` is what the environment gave for the home directory. Without
    /// one the run fails at once: the configuration stays as it was and no
    /// operation is asked for.
    pub fn do_all(&mut self, home: Option<&str>) -> (res: Result<Option<Pending>, EnvFileError>)
        ensures
            home is None ==> res is Err && res->Err_0 == EnvFileError::EnvError && *final(self)
                == *old(self),
            home is Some ==> res is Ok && final(self)@ == old(self)@.fixed(home->0@)
                && pending_view(res->Ok_0) == run_start(final(self)@, 0),
            home is Some && home->0@.len() > 0 && !begins_with_tilde(home->0@) ==> forall|i: int|
                0 <= i < final(self)@.tasks.len() ==> !(#[trigger] final(self)@.tasks[i]).item.has_tilde(),
    {
        match self.fix_home_dir(home) {
            Err(e) => Err(e),
            Ok(()) => Ok(self.begin(0)),
        }
    }

    /// Whether [`Config::run_step`] has to know the current directory for
    /// the step after the operation of `stage`, for the task at place
    /// `index`, has ended in `outcome`. Where it need not, the caller can
    /// spare the lookup and hand in anything.
    pub fn needs_current_dir(
        &self,
        index: usize,
        stage: Stage,
        outcome: &Result<(), IoFailure>,
    ) -> (res: bool)
        ensures
            res == reads_current_dir(self@, index as int, stage, outcome_view(*outcome)),
    {
        let ready = match outcome {
            Ok(_) => true,
            Err(f) => f.kind == IoErrorKind::AlreadyExists,
        };
        match (self.task(index), stage) {
            (Some(task), Stage::Dirs) => ready && task.item.needs_current_dir(self.work_mode()),
            _ => false,
        }
    }

    /// Goes on with a run after the operation of `stage`, for the task at
    /// place `index`, has ended in `outcome`. `cwd` is what the lookup of the
    /// current directory gave; it is read only where
    /// [`Config::needs_current_dir`] says so.
    pub fn run_step(
        &self,
        index: usize,
        stage: Stage,
        outcome: Result<(), IoFailure>,
        cwd: &Result<String, IoFailure>,
    ) -> (res: RunStep)
        ensures
            res@ == run_next(
                self@,
                lookup_view(*cwd),
                index as int,
                stage,
                outcome_view(outcome),
            ),
    {
        match self.task(index) {
            None => RunStep { report: None, next: None },
            Some(task) => match self.task_step(&task.item, stage, outcome, cwd) {
                TaskStep::Perform(then, action) => RunStep {
                    report: None,
                    next: Some(Pending { index, stage: then, action }),
                },
                TaskStep::Finished(result) => RunStep {
                    report: Some(Report { name: task.name.clone(), result }),
                    next: self.begin(index + 1),
                },
            },
        }
    }
}

} // verus!
