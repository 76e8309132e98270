//! The configuration: a work mode and the named tasks it applies to.

use crate::action::{lookup_view, Action, ActionView};
use crate::error::{EnvFileError, ErrorView, IoFailure, IoFailureView};
use crate::path::{
    begins_with_tilde, expand_home, expands_again, is_relative, is_rooted, join, keeps_tilde,
    lemma_expand_home_empty, lemma_expand_home_idempotent, lemma_expand_home_tilde, path_join,
};
use vstd::prelude::*;
use vstd::string::*;

verus! {

/// Which kind of link a configuration makes of every one of its tasks.
#[derive(Clone, Copy, Debug, PartialEq, Eq, Structural)]
pub enum WorkMode {
    HardLink,
    SymLink,
}

impl Default for WorkMode {
    fn default() -> (res: WorkMode)
        ensures
            res == WorkMode::HardLink,
    {
        WorkMode::HardLink
    }
}

/// The permission bits that a destination is to get.
#[derive(Clone, Copy, Debug, PartialEq, Eq, Structural)]
pub struct Permissions {
    pub mode: u32,
}

/// One task: a source, a destination, and the permission bits of the
/// destination where they are to be set.
#[derive(Debug, PartialEq, Eq)]
pub struct ConfigItem {
    pub dst: String,
    pub src: String,
    pub permission: Option<u32>,
}

/// The mathematical value of a [`ConfigItem`].
pub struct ConfigItemView {
    pub dst: Seq<char>,
    pub src: Seq<char>,
    pub permission: Option<u32>,
}

impl ConfigItemView {
    /// The task with the home-directory shorthand expanded in both paths.
    pub open spec fn fixed(self, home: Seq<char>) -> ConfigItemView {
        ConfigItemView {
            dst: expand_home(self.dst, home),
            src: expand_home(self.src, home),
            permission: self.permission,
        }
    }

    /// The source as a symbolic link has to name it: as it stands where it
    /// starts at the root, otherwise resolved against the current directory
    /// `cwd`, whose lookup may have failed.
    pub open spec fn resolved_src(self, cwd: Result<Seq<char>, IoFailureView>) -> Result<
        Seq<char>,
        ErrorView,
    > {
        if is_rooted(self.src) {
            Ok(self.src)
        } else {
            match cwd {
                Ok(dir) => Ok(path_join(dir, self.src)),
                Err(f) => Err(ErrorView::Io(f)),
            }
        }
    }

    /// Linking in the mode `work_mode` has to know the current directory: the
    /// link is symbolic and the source is relative.
    pub open spec fn needs_current_dir(self, work_mode: WorkMode) -> bool {
        work_mode == WorkMode::SymLink && !is_rooted(self.src)
    }

    /// The operation that links the item in the mode `work_mode`.
    pub open spec fn link_action(
        self,
        work_mode: WorkMode,
        cwd: Result<Seq<char>, IoFailureView>,
    ) -> Result<ActionView, ErrorView> {
        match work_mode {
            WorkMode::HardLink => Ok(ActionView::HardLink { src: self.src, dst: self.dst }),
            WorkMode::SymLink => match self.resolved_src(cwd) {
                Ok(target) => Ok(ActionView::SymLink { src: target, dst: self.dst }),
                Err(e) => Err(e),
            },
        }
    }

    /// The operation that sets the permission bits, where any are configured.
    pub open spec fn permission_action(self) -> Option<ActionView> {
        match self.permission {
            Some(mode) => Some(
                ActionView::SetPermissions { path: self.dst, permission: Permissions { mode } },
            ),
            None => None,
        }
    }

    /// One of the two paths begins with a tilde.
    pub open spec fn has_tilde(self) -> bool {
        begins_with_tilde(self.src) || begins_with_tilde(self.dst)
    }

    /// One of the two paths still begins with a tilde after the fix-up.
    pub open spec fn keeps_tilde(self, home: Seq<char>) -> bool {
        keeps_tilde(self.src, home) || keeps_tilde(self.dst, home)
    }

    /// A second fix-up changes one of the two paths again.
    pub open spec fn expands_again(self, home: Seq<char>) -> bool {
        expands_again(self.src, home) || expands_again(self.dst, home)
    }
}

impl View for ConfigItem {
    type V = ConfigItemView;

    open spec fn view(&self) -> ConfigItemView {
        ConfigItemView { dst: self.dst@, src: self.src@, permission: self.permission }
    }
}

impl Clone for ConfigItem {
    fn clone(&self) -> (res: Self)
        ensures
            res == *self,
    {
        ConfigItem { dst: self.dst.clone(), src: self.src.clone(), permission: self.permission }
    }
}

impl ConfigItem {
    /// The permission bits to set on the destination, if any are configured.
    pub fn get_permission(&self) -> (res: Option<Permissions>)
        ensures
            res == match self.permission {
                Some(mode) => Some(Permissions { mode }),
                None => None,
            },
    {
        match self.permission {
            Some(mode) => Some(Permissions { mode }),
            None => None,
        }
    }

    /// Expands the home-directory shorthand, a leading tilde, in both paths,
    /// in place.
    ///
    /// `home` is what the environment gave for the home directory. Without
    /// one the fix-up fails and the task stays as it was.
    pub fn fix_home_dir(&mut self, home: Option<&str>) -> (res: Result<(), EnvFileError>)
        ensures
            home is None ==> res == Err::<(), EnvFileError>(EnvFileError::EnvError) && *final(self)
                == *old(self),
            home is Some ==> res is Ok && final(self)@ == old(self)@.fixed(home->0@),
            home is Some && home->0@.len() > 0 && !begins_with_tilde(home->0@) ==> !final(self)@.has_tilde(),
    {
        match crate::path::fix_home_dir(&mut self.src, home) {
            Err(e) => Err(e),
            Ok(()) => crate::path::fix_home_dir(&mut self.dst, home),
        }
    }

    /// The source as a symbolic link has to name it. A link's target is read
    /// from where the link lies, so a relative source is resolved against
    /// the current directory first; one that starts at the root stays as it
    /// is, and the current directory is not looked at.
    ///
    /// `cwd` is what the lookup of the current directory gave. Where it
    /// failed and the source is relative, its failure is the result.
    pub fn fixed_relative_src(&self, cwd: &Result<String, IoFailure>) -> (res: Result<
        String,
        EnvFileError,
    >)
        ensures
            match self@.resolved_src(lookup_view(*cwd)) {
                Ok(p) => res is Ok && res->Ok_0@ == p,
                Err(e) => res is Err && res->Err_0@ == e,
            },
    {
        if is_relative(self.src.as_str()) {
            match cwd {
                Ok(dir) => Ok(join(dir.as_str(), self.src.as_str())),
                Err(f) => Err(EnvFileError::IoError(f.clone())),
            }
        } else {
            Ok(self.src.clone())
        }
    }

    /// Whether linking in the mode `work_mode` has to know the current
    /// directory. Where it need not, [`ConfigItem::link`] gives the same
    /// operation whatever is handed in for it.
    pub fn needs_current_dir(&self, work_mode: WorkMode) -> (res: bool)
        ensures
            res == self@.needs_current_dir(work_mode),
    {
        match work_mode {
            WorkMode::HardLink => false,
            WorkMode::SymLink => is_relative(self.src.as_str()),
        }
    }

    /// The operation that links the item: a hard link from the source as it
    /// stands, or a symbolic link to the source resolved as
    /// [`ConfigItem::fixed_relative_src`] says.
    pub fn link(&self, work_mode: WorkMode, cwd: &Result<String, IoFailure>) -> (res: Result<
        Action,
        EnvFileError,
    >)
        ensures
            match self@.link_action(work_mode, lookup_view(*cwd)) {
                Ok(a) => res is Ok && res->Ok_0@ == a,
                Err(e) => res is Err && res->Err_0@ == e,
            },
    {
        match work_mode {
            WorkMode::HardLink => Ok(
                Action::HardLink { src: self.src.clone(), dst: self.dst.clone() },
            ),
            WorkMode::SymLink => match self.fixed_relative_src(cwd) {
                Ok(target) => Ok(Action::SymLink { src: target, dst: self.dst.clone() }),
                Err(e) => Err(e),
            },
        }
    }

    /// The operation that sets the destination's permission bits, where any
    /// are configured.
    pub fn set_permissions(&self) -> (res: Option<Action>)
        ensures
            match self@.permission_action() {
                Some(a) => res is Some && res->0@ == a,
                None => res is None,
            },
    {
        match self.get_permission() {
            Some(permission) => Some(
                Action::SetPermissions { path: self.dst.clone(), permission },
            ),
            None => None,
        }
    }
}

/// The current directory bears on the link only where the link needs it:
/// elsewhere the operation is the same whatever the lookup gave.
pub proof fn lemma_link_reads_current_dir_where_needed(
    item: ConfigItemView,
    work_mode: WorkMode,
    cwd: Result<Seq<char>, IoFailureView>,
    other: Result<Seq<char>, IoFailureView>,
)
    requires
        !item.needs_current_dir(work_mode),
    ensures
        item.link_action(work_mode, cwd) == item.link_action(work_mode, other),
        item.link_action(work_mode, cwd) is Ok,
{
}

/// After the fix-up a task has a path that begins with a tilde on the
/// inputs that `keeps_tilde` describes, and on no others.
pub proof fn lemma_item_fix_home_dir_tilde(item: ConfigItemView, home: Seq<char>)
    ensures
        item.fixed(home).has_tilde() <==> item.keeps_tilde(home),
{
    lemma_expand_home_tilde(item.src, home);
    lemma_expand_home_tilde(item.dst, home);
}

/// With a home directory that is not empty and begins with no tilde, no
/// path of a task begins with a tilde after the fix-up.
pub proof fn lemma_item_fix_home_dir_removes_tilde(item: ConfigItemView, home: Seq<char>)
    requires
        home.len() > 0,
        !begins_with_tilde(home),
    ensures
        !item.fixed(home).has_tilde(),
{
    lemma_expand_home_tilde(item.src, home);
    lemma_expand_home_tilde(item.dst, home);
}

/// A task whose paths are not empty has no empty path after the fix-up,
/// unless the home directory is empty and a path is a tilde alone.
pub proof fn lemma_item_fix_home_dir_keeps_nonempty(item: ConfigItemView, home: Seq<char>)
    requires
        item.src.len() > 0,
        item.dst.len() > 0,
        home.len() > 0 || (item.src != seq!['~'] && item.dst != seq!['~']),
    ensures
        item.fixed(home).src.len() > 0,
        item.fixed(home).dst.len() > 0,
{
    lemma_expand_home_empty(item.src, home);
    lemma_expand_home_empty(item.dst, home);
    if home.len() == 0 {
        if item.src.len() == 1 && item.src[0] == '~' {
            assert(item.src =~= seq!['~']);
        }
        if item.dst.len() == 1 && item.dst[0] == '~' {
            assert(item.dst =~= seq!['~']);
        }
    }
}

/// Fixing a task up twice gives what fixing it up once gives, unless one of
/// the paths still begins with a tilde after the first fix-up and the home
/// directory is more than that tilde.
pub proof fn lemma_item_fix_home_dir_idempotent(item: ConfigItemView, home: Seq<char>)
    requires
        !item.expands_again(home),
    ensures
        item.fixed(home).fixed(home) == item.fixed(home),
{
    lemma_expand_home_idempotent(item.src, home);
    lemma_expand_home_idempotent(item.dst, home);
}

/// A task under its name.
#[derive(Debug, PartialEq, Eq)]
pub struct Task {
    pub name: String,
    pub item: ConfigItem,
}

/// The mathematical value of a [`Task`].
pub struct TaskView {
    pub name: Seq<char>,
    pub item: ConfigItemView,
}

impl TaskView {
    /// The task under the same name, with its paths fixed up.
    pub open spec fn fixed(self, home: Seq<char>) -> TaskView {
        TaskView { name: self.name, item: self.item.fixed(home) }
    }
}

impl View for Task {
    type V = TaskView;

    open spec fn view(&self) -> TaskView {
        TaskView { name: self.name@, item: self.item@ }
    }
}

impl Clone for Task {
    fn clone(&self) -> (res: Self)
        ensures
            res == *self,
    {
        Task { name: self.name.clone(), item: self.item.clone() }
    }
}

/// The mathematical value of a [`Config`]: the work mode and the tasks, in
/// the order in which a run takes them.
pub struct ConfigView {
    pub work_mode: WorkMode,
    pub tasks: Seq<TaskView>,
}

impl ConfigView {
    /// No two tasks have the same name.
    pub open spec fn unique_names(self) -> bool {
        forall|i: int, j: int|
            0 <= i < j < self.tasks.len() ==> self.tasks[i].name != self.tasks[j].name
    }

    /// A task of this configuration has the name `name`.
    pub open spec fn has_name(self, name: Seq<char>) -> bool {
        exists|i: int| 0 <= i < self.tasks.len() && self.tasks[i].name == name
    }

    /// The place of the task named `name`, where there is one.
    pub open spec fn index_of(self, name: Seq<char>) -> int {
        choose|i: int| 0 <= i < self.tasks.len() && self.tasks[i].name == name
    }

    /// The tasks by their names.
    pub open spec fn task_map(self) -> Map<Seq<char>, ConfigItemView> {
        Map::new(
            |name: Seq<char>| self.has_name(name),
            |name: Seq<char>| self.tasks[self.index_of(name)].item,
        )
    }

    /// The configuration with every task fixed up.
    pub open spec fn fixed(self, home: Seq<char>) -> ConfigView {
        ConfigView {
            work_mode: self.work_mode,
            tasks: Seq::new(self.tasks.len(), |i: int| self.tasks[i].fixed(home)),
        }
    }

    /// The configuration after `task` was put in under its name: in the
    /// place of the task that had the name, or behind all others.
    pub open spec fn with_task(self, task: TaskView) -> ConfigView {
        ConfigView {
            work_mode: self.work_mode,
            tasks: if self.has_name(task.name) {
                self.tasks.update(self.index_of(task.name), task)
            } else {
                self.tasks.push(task)
            },
        }
    }
}

/// Where names differ, the task at a place is the one that its name finds.
pub proof fn lemma_name_finds_its_place(config: ConfigView, i: int)
    requires
        config.unique_names(),
        0 <= i < config.tasks.len(),
    ensures
        config.has_name(config.tasks[i].name),
        config.index_of(config.tasks[i].name) == i,
        config.task_map()[config.tasks[i].name] == config.tasks[i].item,
{
    let name = config.tasks[i].name;
    let j = config.index_of(name);
    assert(0 <= j < config.tasks.len() && config.tasks[j].name == name);
    assert(j == i);
}

/// Putting a task in keeps the names different, and does to the tasks by
/// name what inserting does to a map: the name now finds the new task, and
/// every other name finds what it found before.
pub proof fn lemma_with_task_inserts(config: ConfigView, task: TaskView)
    requires
        config.unique_names(),
    ensures
        config.with_task(task).unique_names(),
        config.with_task(task).task_map() == config.task_map().insert(task.name, task.item),
{
    let after = config.with_task(task);
    if config.has_name(task.name) {
        assert(forall|k: int|
            0 <= k < after.tasks.len() ==> (#[trigger] after.tasks[k]).name
                == config.tasks[k].name);
    } else {
        assert(forall|k: int|
            0 <= k < config.tasks.len() ==> (#[trigger] after.tasks[k]) == config.tasks[k]);
        assert(after.tasks[config.tasks.len() as int] == task);
    }
    assert(after.unique_names());
    assert forall|name: Seq<char>| #[trigger]
        after.task_map().dom().contains(name) <==> config.task_map().insert(
            task.name,
            task.item,
        ).dom().contains(name) by {
        if after.has_name(name) {
            let j = after.index_of(name);
            if name != task.name {
                assert(0 <= j < config.tasks.len() && config.tasks[j].name == name);
            }
        }
        if config.has_name(name) {
            let j = config.index_of(name);
            assert(after.tasks[j].name == name);
        }
        if name == task.name {
            if config.has_name(task.name) {
                assert(after.tasks[config.index_of(task.name)].name == name);
            } else {
                assert(after.tasks[config.tasks.len() as int].name == name);
            }
        }
    }
    assert forall|name: Seq<char>| #[trigger]
        after.task_map().dom().contains(name) implies after.task_map()[name]
        == config.task_map().insert(task.name, task.item)[name] by {
        let j = after.index_of(name);
        assert(0 <= j < after.tasks.len() && after.tasks[j].name == name);
        if name == task.name {
            if config.has_name(task.name) {
                let i = config.index_of(task.name);
                assert(after.tasks[i].name == name);
                assert(j == i);
            } else {
                assert(after.tasks[config.tasks.len() as int].name == name);
                assert(j == config.tasks.len());
            }
        } else {
            assert(0 <= j < config.tasks.len() && config.tasks[j].name == name);
            lemma_name_finds_its_place(config, j);
            assert(after.tasks[j].item == config.tasks[j].item);
        }
    }
    assert(after.task_map() =~= config.task_map().insert(task.name, task.item));
}

/// The views of the tasks in a list.
pub open spec fn task_views(list: Seq<Task>) -> Seq<TaskView> {
    Seq::new(list.len(), |i: int| list[i]@)
}

/// A work mode and the tasks it applies to, each under a name of its own.
#[derive(Debug)]
pub struct Config {
    pub(crate) work_mode: WorkMode,
    pub(crate) task_list: Vec<Task>,
}

impl View for Config {
    type V = ConfigView;

    closed spec fn view(&self) -> ConfigView {
        ConfigView { work_mode: self.work_mode, tasks: task_views(self.task_list@) }
    }
}

impl Config {
    #[verifier::type_invariant]
    spec fn names_differ(&self) -> bool {
        self@.unique_names()
    }

    /// A configuration without tasks, in the default work mode.
    pub fn new() -> (res: Config)
        ensures
            res@.work_mode == WorkMode::HardLink,
            res@.tasks == Seq::<TaskView>::empty(),
            res@.unique_names(),
    {
        let res = Config { work_mode: WorkMode::default(), task_list: Vec::new() };
        assert(res@.tasks =~= Seq::<TaskView>::empty());
        res
    }

    /// The work mode of every task.
    pub fn work_mode(&self) -> (res: WorkMode)
        ensures
            res == self@.work_mode,
    {
        self.work_mode
    }

    /// Sets the work mode of every task.
    pub fn set_work_mode(&mut self, work_mode: WorkMode)
        ensures
            final(self)@.work_mode == work_mode,
            final(self)@.tasks == old(self)@.tasks,
            final(self)@.unique_names(),
    {
        proof {
            use_type_invariant(&*self);
        }
        self.work_mode = work_mode;
    }

    /// How many tasks there are.
    pub fn len(&self) -> (res: usize)
        ensures
            res == self@.tasks.len(),
    {
        self.task_list.len()
    }

    /// The task at place `index`, if there are that many.
    pub fn task(&self, index: usize) -> (res: Option<&Task>)
        ensures
            index < self@.tasks.len() ==> res is Some && res->0@ == self@.tasks[index as int],
            index >= self@.tasks.len() ==> res is None,
            self@.tasks.len() <= usize::MAX,
    {
        if index < self.task_list.len() {
            Some(&self.task_list[index])
        } else {
            None
        }
    }

    /// The place of the task named `name`, if there is one.
    pub fn position(&self, name: &str) -> (res: Option<usize>)
        ensures
            res is Some <==> self@.has_name(name@),
            res is Some ==> res->0 < self@.tasks.len() && self@.tasks[res->0 as int].name == name@
                && res->0 == self@.index_of(name@),
    {
        proof {
            use_type_invariant(self);
        }
        let wanted = String::from_str(name);
        let n: usize = self.task_list.len();
        let mut i: usize = 0;
        while i < n
            invariant
                i <= n,
                n == self.task_list.len(),
                wanted@ == name@,
                self@.unique_names(),
                forall|k: int| 0 <= k < i ==> self@.tasks[k].name != name@,
            decreases n - i,
        {
            if self.task_list[i].name == wanted {
                proof {
                    assert(self@.tasks[i as int].name == name@);
                    let j = self@.index_of(name@);
                    assert(0 <= j < self@.tasks.len() && self@.tasks[j].name == name@);
                    assert(j == i);
                }
                return Some(i);
            }
            i += 1;
        }
        None
    }

    /// The task named `name`, if there is one.
    pub fn get(&self, name: &str) -> (res: Option<&ConfigItem>)
        ensures
            res is Some <==> self@.task_map().dom().contains(name@),
            res is Some ==> res->0@ == self@.task_map()[name@],
    {
        match self.position(name) {
            Some(i) => Some(&self.task_list[i].item),
            None => None,
        }
    }

    /// Takes the tasks out and leaves none.
    fn take_tasks(&mut self) -> (res: Vec<Task>)
        ensures
            res == old(self).task_list,
            final(self).work_mode == old(self).work_mode,
            final(self).task_list@.len() == 0,
    {
        let mut rest = Config { work_mode: self.work_mode, task_list: Vec::new() };
        core::mem::swap(self, &mut rest);
        rest.task_list
    }

    /// Puts `item` in under `name`. Where a task had that name already, the
    /// new one takes its place and the old one is handed back; otherwise the
    /// new one comes behind all others.
    pub fn insert(&mut self, name: String, item: ConfigItem) -> (res: Option<ConfigItem>)
        ensures
            final(self)@ == old(self)@.with_task(TaskView { name: name@, item: item@ }),
            final(self)@.task_map() == old(self)@.task_map().insert(name@, item@),
            res is Some <==> old(self)@.task_map().dom().contains(name@),
            res is Some ==> res->0@ == old(self)@.task_map()[name@],
            final(self)@.unique_names(),
    {
        proof {
            use_type_invariant(&*self);
            lemma_with_task_inserts(self@, TaskView { name: name@, item: item@ });
        }
        let ghost before = self@;
        let ghost task = TaskView { name: name@, item: item@ };
        let place = self.position(name.as_str());
        let mut list = self.take_tasks();
        let res = match place {
            Some(i) => {
                let previous = list[i].item.clone();
                list[i] = Task { name, item };
                assert(task_views(list@) =~= before.tasks.update(i as int, task));
                Some(previous)
            },
            None => {
                list.push(Task { name, item });
                assert(task_views(list@) =~= before.tasks.push(task));
                None
            },
        };
        *self = Config { work_mode: self.work_mode, task_list: list };
        res
    }

    /// Expands the home-directory shorthand, a leading tilde, in the paths
    /// of every task, in place.
    ///
    /// `home` is what the environment gave for the home directory. Without
    /// one the fix-up fails, whatever the tasks are, and no task is changed.
    pub fn fix_home_dir(&mut self, home: Option<&str>) -> (res: Result<(), EnvFileError>)
        ensures
            home is None ==> res == Err::<(), EnvFileError>(EnvFileError::EnvError) && *final(self)
                == *old(self),
            home is Some ==> res is Ok && final(self)@ == old(self)@.fixed(home->0@),
            home is Some && home->0@.len() > 0 && !begins_with_tilde(home->0@) ==> forall|i: int|
                0 <= i < final(self)@.tasks.len() ==> !(#[trigger] final(self)@.tasks[i]).item.has_tilde(),
            final(self)@.unique_names(),
    {
        proof {
            use_type_invariant(&*self);
            if home is Some && home->0@.len() > 0 && !begins_with_tilde(home->0@) {
                lemma_fix_home_dir_removes_tilde(self@, home->0@);
            }
        }
        if home.is_none() {
            return Err(EnvFileError::EnvError);
        }
        let ghost before = self@;
        let ghost h = home->0@;
        let mut list = self.take_tasks();
        let n: usize = list.len();
        let mut i: usize = 0;
        while i < n
            invariant
                i <= n,
                n == list.len(),
                n == before.tasks.len(),
                home is Some,
                h == home->0@,
                forall|k: int| 0 <= k < i ==> list[k]@ == before.tasks[k].fixed(h),
                forall|k: int| i <= k < n ==> list[k]@ == before.tasks[k],
            decreases n - i,
        {
            let _ = list[i].item.fix_home_dir(home);
            i += 1;
        }
        assert(task_views(list@) =~= before.fixed(h).tasks);
        *self = Config { work_mode: self.work_mode, task_list: list };
        Ok(())
    }
}

/// After the fix-up a task of the configuration has a path that begins
/// with a tilde exactly when one of its paths keeps its tilde: the path
/// began with a tilde, and the home directory begins with one too, or is
/// empty before a second tilde of the path.
pub proof fn lemma_fix_home_dir_tilde(config: ConfigView, home: Seq<char>)
    ensures
        config.fixed(home).tasks.len() == config.tasks.len(),
        forall|i: int|
            0 <= i < config.tasks.len() ==> (#[trigger] config.fixed(home).tasks[i].item.has_tilde()
                <==> config.tasks[i].item.keeps_tilde(home)),
{
    assert forall|i: int| 0 <= i < config.tasks.len() implies (#[trigger] config.fixed(
        home,
    ).tasks[i].item.has_tilde() <==> config.tasks[i].item.keeps_tilde(home)) by {
        lemma_item_fix_home_dir_tilde(config.tasks[i].item, home);
    }
}

/// With a home directory that is not empty and begins with no tilde, no
/// path of any task begins with a tilde after the fix-up.
pub proof fn lemma_fix_home_dir_removes_tilde(config: ConfigView, home: Seq<char>)
    requires
        home.len() > 0,
        !begins_with_tilde(home),
    ensures
        config.fixed(home).tasks.len() == config.tasks.len(),
        forall|i: int|
            0 <= i < config.tasks.len() ==> !(#[trigger] config.fixed(home).tasks[i]).item.has_tilde(),
{
    assert forall|i: int| 0 <= i < config.tasks.len() implies !(#[trigger] config.fixed(
        home,
    ).tasks[i]).item.has_tilde() by {
        lemma_item_fix_home_dir_removes_tilde(config.tasks[i].item, home);
    }
}

/// Fixing a configuration up twice gives what fixing it up once gives,
/// unless a path of some task still begins with a tilde after the first
/// fix-up and the home directory is more than that tilde.
pub proof fn lemma_fix_home_dir_idempotent(config: ConfigView, home: Seq<char>)
    requires
        forall|i: int| 0 <= i < config.tasks.len() ==> !(#[trigger] config.tasks[i]).item.expands_again(home),
    ensures
        config.fixed(home).fixed(home) == config.fixed(home),
{
    assert forall|i: int| 0 <= i < config.tasks.len() implies config.fixed(home).fixed(
        home,
    ).tasks[i] == config.fixed(home).tasks[i] by {
        lemma_item_fix_home_dir_idempotent(config.tasks[i].item, home);
    }
    assert(config.fixed(home).fixed(home).tasks =~= config.fixed(home).tasks);
}

/// The fix-up keeps the names, and with them their being different.
pub proof fn lemma_fix_home_dir_keeps_names(config: ConfigView, home: Seq<char>)
    requires
        config.unique_names(),
    ensures
        config.fixed(home).unique_names(),
        forall|i: int| 0 <= i < config.tasks.len() ==> #[trigger] config.fixed(home).tasks[i].name == config.tasks[i].name,
{
}

} // verus!
