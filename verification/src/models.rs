//! The data model: tasks, task lists, the sidebar's list selector and the
//! provider identifiers the orchestrator dispatches on.

use vstd::prelude::*;
use crate::recurrence::Recurrence;

verus! {

/// Completion status of a task or sub-task.
#[derive(Clone, Copy, Debug, PartialEq, Eq, Structural)]
pub enum Status {
    NotStarted,
    Completed,
}

impl Default for Status {
    /// A fresh task has not been started.
    fn default() -> (s: Status)
        ensures
            s == Status::NotStarted,
    {
        Status::NotStarted
    }
}

/// One entry of a task's ordered sub-task list.
#[derive(Clone, Debug)]
pub struct SubTask {
    pub id: String,
    pub title: String,
    pub status: Status,
}

impl SubTask {
    /// Sets the completion status from a checkbox state: checked means
    /// completed, unchecked means not started.
    pub fn set_completed(&mut self, completed: bool)
        ensures
            final(self).status == (if completed {
                Status::Completed
            } else {
                Status::NotStarted
            }),
            final(self).id == old(self).id,
            final(self).title == old(self).title,
    {
        if completed {
            self.status = Status::Completed;
        } else {
            self.status = Status::NotStarted;
        }
    }

    /// Replaces the title.
    pub fn set_title(&mut self, title: String)
        ensures
            final(self).title == title,
            final(self).id == old(self).id,
            final(self).status == old(self).status,
    {
        self.title = title;
    }
}

/// A task. The due date, when present, is the Unix timestamp of the due
/// instant in seconds (UTC).
#[derive(Clone, Debug)]
pub struct Task {
    pub id: String,
    pub parent: String,
    pub title: String,
    pub status: Status,
    pub due_date: Option<i64>,
    pub favorite: bool,
    pub today: bool,
    pub recurrence: Option<Recurrence>,
    pub sub_tasks: Vec<SubTask>,
}

/// Whether `t` is the default task: empty, not started, with no due date,
/// no flags set, no recurrence and no sub-tasks.
pub open spec fn is_default_task(t: Task) -> bool {
    &&& t.id@ == Seq::<char>::empty()
    &&& t.parent@ == Seq::<char>::empty()
    &&& t.title@ == Seq::<char>::empty()
    &&& t.status == Status::NotStarted
    &&& t.due_date is None
    &&& !t.favorite
    &&& !t.today
    &&& t.recurrence is None
    &&& t.sub_tasks@ == Seq::<SubTask>::empty()
}

impl Default for Task {
    /// An empty, not-started task with no due date, no flags set, no
    /// recurrence and no sub-tasks.
    fn default() -> (t: Task)
        ensures
            is_default_task(t),
    {
        Task {
            id: String::new(),
            parent: String::new(),
            title: String::new(),
            status: Status::NotStarted,
            due_date: None,
            favorite: false,
            today: false,
            recurrence: None,
            sub_tasks: Vec::new(),
        }
    }
}

/// A task list as a provider reports it.
#[derive(Clone, Debug)]
pub struct List {
    pub id: String,
    pub name: String,
    pub description: String,
    pub icon: Option<String>,
    /// True for the locally computed virtual lists, false for lists a user
    /// created on the provider.
    pub smart: bool,
}

/// Whether `l` is the default list: empty and not smart.
pub open spec fn is_default_list(l: List) -> bool {
    &&& l.id@ == Seq::<char>::empty()
    &&& l.name@ == Seq::<char>::empty()
    &&& l.description@ == Seq::<char>::empty()
    &&& l.icon is None
    &&& !l.smart
}

impl Default for List {
    /// An empty, non-smart list.
    fn default() -> (l: List)
        ensures
            is_default_list(l),
    {
        List {
            id: String::new(),
            name: String::new(),
            description: String::new(),
            icon: None,
            smart: false,
        }
    }
}

/// The list selector the sidebar offers: one of the five locally computed
/// virtual lists, or a custom list stored on a provider.
#[derive(Clone, Debug)]
pub enum SidebarList {
    All,
    Today,
    Starred,
    Next7Days,
    Done,
    Custom(List),
}

/// Whether a selector names a locally computed virtual list rather than a
/// custom one.
pub open spec fn is_smart_spec(list: SidebarList) -> bool {
    !(list is Custom)
}

impl SidebarList {
    /// Whether this selector names a locally computed virtual list.
    pub fn smart(&self) -> (r: bool)
        ensures
            r == is_smart_spec(*self),
    {
        match self {
            SidebarList::Custom(_) => false,
            _ => true,
        }
    }
}

/// The identifier of a backend provider.
#[derive(Clone, Copy, Debug, PartialEq, Eq, Structural)]
pub enum Service {
    /// The no-op provider behind the virtual scopes.
    Smart,
    /// The remote task service.
    Microsoft,
}

} // verus!
