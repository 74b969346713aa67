//! The synchronization orchestrator: the state machine that selects a list,
//! chooses the fetch path, cancels superseded fetches and aggregates results
//! into the visible task collection.
//!
//! The orchestrator is pure: every outside effect (the provider calls, the
//! spawned streaming fetch) is named by a [`FetchCommand`] the caller's
//! update loop performs, handing the outcome back through the corresponding
//! method. Streamed results carry the generation of the fetch that produced
//! them, and results of a superseded generation are discarded: issuing a new
//! selection bumps the generation, so a fetch aborted late can never leak
//! tasks into a newer selection.

use vstd::prelude::*;
use crate::models::{is_smart_spec, Service, SidebarList, Task};
use crate::queries::{filter_tasks_spec, select_tasks};

verus! {

/// The observable state of the orchestrator.
#[derive(Clone, Copy, Debug, PartialEq, Eq, PartialOrd, Ord, Structural)]
pub enum ContentState {
    Unselected,
    Empty,
    Loading,
    TasksLoaded,
}

/// The signal the orchestrator's owner forwards to the surrounding
/// navigation.
#[derive(Clone, Copy, Debug)]
pub enum ContentOutput {
    CollapseSidebar,
}

/// The outside work the update loop must perform next, named explicitly so
/// that the decision stays here and only the I/O leaves.
#[derive(Clone, Debug)]
pub enum FetchCommand {
    /// Nothing to fetch.
    Idle,
    /// Fetch the provider's full task set in bulk, then hand the outcome to
    /// [`ContentModel::bulk_fetched`].
    Bulk,
    /// Fetch one list's task set in bulk, then hand the outcome to
    /// [`ContentModel::custom_fetched`].
    BulkFromList(String),
    /// Launch a cancellable streaming fetch of one list, delivering each
    /// arrival to [`ContentModel::stream_task`] tagged with the given
    /// generation, or [`ContentModel::stream_empty`] if the stream yields
    /// nothing at all.
    Stream(String, u64),
}

/// The orchestrator's state as the contracts speak of it.
pub struct ContentSnapshot {
    pub state: ContentState,
    pub tasks: Seq<Task>,
    pub service: Service,
    pub parent_list: Option<SidebarList>,
    pub generation: int,
    pub stream_active: bool,
}

/// The orchestrator. The visible task collection is replaced wholesale on
/// each load; at most one streaming fetch is outstanding at a time.
pub struct ContentModel {
    pub state: ContentState,
    pub tasks: Vec<Task>,
    pub service: Service,
    pub parent_list: Option<SidebarList>,
    pub generation: u64,
    pub stream_active: bool,
}

impl View for ContentModel {
    type V = ContentSnapshot;

    open spec fn view(&self) -> ContentSnapshot {
        ContentSnapshot {
            state: self.state,
            tasks: self.tasks@,
            service: self.service,
            parent_list: self.parent_list,
            generation: self.generation as int,
            stream_active: self.stream_active,
        }
    }
}

/// The state before any selection: nothing visible, the null provider
/// active.
pub open spec fn initial_snapshot() -> ContentSnapshot {
    ContentSnapshot {
        state: ContentState::Unselected,
        tasks: Seq::empty(),
        service: Service::Smart,
        parent_list: None,
        generation: 0,
        stream_active: false,
    }
}

/// Selecting a list: the state passes through Loading, and any in-flight
/// fetch is superseded by bumping the generation and dropping the handle.
pub open spec fn select_list_next(m: ContentSnapshot) -> ContentSnapshot {
    ContentSnapshot {
        state: ContentState::Loading,
        generation: m.generation + 1,
        stream_active: false,
        ..m
    }
}

/// Beginning a load: the visible set is cleared and the active provider
/// switched before anything is fetched.
pub open spec fn begin_load_next(m: ContentSnapshot, service: Service) -> ContentSnapshot {
    ContentSnapshot { tasks: Seq::empty(), service: service, ..m }
}

/// The two rules closing every load: a visible set still empty outside of
/// Loading settles at Empty, and a smart (virtual) selection settles back at
/// Unselected whatever the result was.
pub open spec fn finish_rules(m: ContentSnapshot, list: SidebarList) -> ContentSnapshot {
    let m1 = if m.tasks.len() == 0 && !(m.state is Loading) {
        ContentSnapshot { state: ContentState::Empty, ..m }
    } else {
        m
    };
    if is_smart_spec(list) {
        ContentSnapshot { state: ContentState::Unselected, ..m1 }
    } else {
        m1
    }
}

/// The state after the bulk task fetch returns. A failed fetch applies
/// nothing but the closing rules. A virtual selection filters the fetched
/// set and shows it. A custom selection records itself and stays Loading:
/// its own scoped fetch (streaming where supported, bulk otherwise) is still
/// to come.
pub open spec fn bulk_fetched_next(
    m: ContentSnapshot,
    list: SidebarList,
    fetched: Option<Seq<Task>>,
    stream_support: bool,
    now: int,
) -> ContentSnapshot {
    match fetched {
        Option::None => finish_rules(m, list),
        Option::Some(ts) => match list {
            SidebarList::Custom(_) => {
                let m1 = ContentSnapshot {
                    parent_list: Some(list),
                    state: ContentState::Loading,
                    ..m
                };
                if stream_support {
                    finish_rules(ContentSnapshot { stream_active: true, ..m1 }, list)
                } else {
                    m1
                }
            },
            _ => {
                let m1 = ContentSnapshot {
                    parent_list: Some(list),
                    tasks: filter_tasks_spec(ts, list, now),
                    state: ContentState::TasksLoaded,
                    ..m
                };
                finish_rules(m1, list)
            },
        },
    }
}

/// The state after a custom list's scoped bulk fetch returns: an empty or
/// failed result settles at Empty, a non-empty one shows the tasks.
pub open spec fn custom_fetched_next(m: ContentSnapshot, fetched: Option<Seq<Task>>) -> ContentSnapshot {
    match fetched {
        Option::None => ContentSnapshot { state: ContentState::Empty, ..m },
        Option::Some(ts) => if ts.len() == 0 {
            ContentSnapshot { state: ContentState::Empty, ..m }
        } else {
            ContentSnapshot { tasks: m.tasks + ts, state: ContentState::TasksLoaded, ..m }
        },
    }
}

/// The state after one streamed task arrives. An arrival of a superseded
/// generation, or outside a custom selection, changes nothing.
pub open spec fn stream_task_next(m: ContentSnapshot, g: int, t: Task) -> ContentSnapshot {
    if g == m.generation && (match m.parent_list {
        Some(SidebarList::Custom(_)) => true,
        _ => false,
    }) {
        ContentSnapshot { tasks: m.tasks.push(t), state: ContentState::TasksLoaded, ..m }
    } else {
        m
    }
}

/// The state after a streaming fetch reports that it yielded nothing at
/// all. A report of a superseded generation changes nothing.
pub open spec fn stream_empty_next(m: ContentSnapshot, g: int) -> ContentSnapshot {
    if g == m.generation {
        ContentSnapshot { state: ContentState::Empty, ..m }
    } else {
        m
    }
}

/// The state after a provider is disabled: if it was the active one, the
/// selection is forced back to Unselected.
pub open spec fn service_disabled_next(m: ContentSnapshot, service: Service) -> ContentSnapshot {
    if m.service == service {
        ContentSnapshot { state: ContentState::Unselected, ..m }
    } else {
        m
    }
}

/// The state after a task was created on the provider: within a custom
/// selection it joins the visible set, otherwise nothing changes.
pub open spec fn task_created_next(m: ContentSnapshot, t: Task) -> ContentSnapshot {
    match m.parent_list {
        Some(SidebarList::Custom(_)) => ContentSnapshot {
            tasks: m.tasks.push(t),
            state: ContentState::TasksLoaded,
            ..m
        },
        _ => m,
    }
}

/// The state after a task was deleted on the provider: the entry at the
/// index leaves the visible set; an index out of range changes nothing.
pub open spec fn task_removed_next(m: ContentSnapshot, index: int) -> ContentSnapshot {
    if 0 <= index < m.tasks.len() {
        ContentSnapshot { tasks: m.tasks.remove(index), ..m }
    } else {
        m
    }
}

impl ContentModel {
    /// The orchestrator before any selection.
    pub fn new() -> (m: ContentModel)
        ensures
            m@ == initial_snapshot(),
    {
        let m = ContentModel {
            state: ContentState::Unselected,
            tasks: Vec::new(),
            service: Service::Smart,
            parent_list: None,
            generation: 0,
            stream_active: false,
        };
        proof {
            assert(m@ =~= initial_snapshot());
        }
        m
    }

    /// Forces the state back to Unselected.
    pub fn clean(&mut self)
        ensures
            final(self)@ == (ContentSnapshot { state: ContentState::Unselected, ..old(self)@ }),
    {
        self.state = ContentState::Unselected;
    }

    /// Sets the state directly.
    pub fn set_state(&mut self, state: ContentState)
        ensures
            final(self)@ == (ContentSnapshot { state: state, ..old(self)@ }),
    {
        self.state = state;
    }

    /// Selects a list: supersedes any in-flight fetch and passes through
    /// Loading. The caller's update loop must abort the superseded fetch
    /// handle and dispatch the load itself.
    pub fn select_list(&mut self)
        requires
            old(self).generation < u64::MAX,
        ensures
            final(self)@ == select_list_next(old(self)@),
    {
        self.state = ContentState::Loading;
        self.generation = self.generation + 1;
        self.stream_active = false;
    }

    /// Begins a load: clears the visible set, switches the active provider,
    /// and asks for the provider's full task set.
    pub fn begin_load(&mut self, service: Service) -> (cmd: FetchCommand)
        ensures
            final(self)@ == begin_load_next(old(self)@, service),
            cmd is Bulk,
    {
        self.tasks.clear();
        self.service = service;
        FetchCommand::Bulk
    }

    /// Takes the outcome of the bulk task fetch, `None` standing for a
    /// provider error. For a virtual selection the fetched set is filtered
    /// by the selector at the instant `now` and shown; for a custom
    /// selection the returned command names the scoped fetch still to
    /// perform, streaming exactly where the provider supports it.
    pub fn bulk_fetched(
        &mut self,
        list: SidebarList,
        fetched: Option<Vec<Task>>,
        stream_support: bool,
        now: i64,
    ) -> (cmd: FetchCommand)
        ensures
            final(self)@ == bulk_fetched_next(
                old(self)@,
                list,
                opt_tasks_view(fetched),
                stream_support,
                now as int,
            ),
            match list {
                SidebarList::Custom(l) => {
                    if fetched is None {
                        cmd is Idle
                    } else if stream_support {
                        cmd == FetchCommand::Stream(l.id, old(self).generation)
                    } else {
                        cmd == FetchCommand::BulkFromList(l.id)
                    }
                },
                _ => cmd is Idle,
            },
    {
        match fetched {
            Option::None => {
                self.apply_finish_rules(&list);
                FetchCommand::Idle
            },
            Option::Some(ts) => match list {
                SidebarList::Custom(custom) => {
                    let id = custom.id.clone();
                    self.parent_list = Some(SidebarList::Custom(custom));
                    self.state = ContentState::Loading;
                    if stream_support {
                        self.stream_active = true;
                        let cmd = FetchCommand::Stream(id, self.generation);
                        let ghost list_g = self.parent_list->0;
                        self.apply_finish_rules_ghost(Ghost(list_g));
                        cmd
                    } else {
                        FetchCommand::BulkFromList(id)
                    }
                },
                _ => {
                    let shown = select_tasks(&list, ts, now);
                    self.tasks = shown;
                    self.state = ContentState::TasksLoaded;
                    self.parent_list = Some(list);
                    let ghost list_g = self.parent_list->0;
                    self.apply_finish_rules_ghost(Ghost(list_g));
                    FetchCommand::Idle
                },
            },
        }
    }

    /// Applies the two closing rules of a load.
    fn apply_finish_rules(&mut self, list: &SidebarList)
        ensures
            final(self)@ == finish_rules(old(self)@, *list),
    {
        if self.tasks.len() == 0 && !matches!(self.state, ContentState::Loading) {
            self.state = ContentState::Empty;
        }
        if list.smart() {
            self.state = ContentState::Unselected;
        }
    }

    /// Applies the two closing rules with the list known only in the
    /// contract, for the paths that consumed the selector already.
    fn apply_finish_rules_ghost(&mut self, Ghost(list): Ghost<SidebarList>)
        requires
            match old(self).parent_list {
                Some(l) => is_smart_spec(l) == is_smart_spec(list),
                None => false,
            },
        ensures
            final(self)@ == finish_rules(old(self)@, list),
    {
        let smart = match &self.parent_list {
            Some(l) => l.smart(),
            None => false,
        };
        if self.tasks.len() == 0 && !matches!(self.state, ContentState::Loading) {
            self.state = ContentState::Empty;
        }
        if smart {
            self.state = ContentState::Unselected;
        }
    }

    /// Takes the outcome of a custom list's scoped bulk fetch, `None`
    /// standing for a provider error.
    pub fn custom_fetched(&mut self, fetched: Option<Vec<Task>>)
        ensures
            final(self)@ == custom_fetched_next(old(self)@, opt_tasks_view(fetched)),
    {
        match fetched {
            Option::None => {
                self.state = ContentState::Empty;
            },
            Option::Some(ts) => {
                if ts.len() == 0 {
                    self.state = ContentState::Empty;
                } else {
                    let mut incoming = ts;
                    self.append_tasks(&mut incoming);
                    self.state = ContentState::TasksLoaded;
                }
            },
        }
    }

    /// Moves every task of `incoming` to the end of the visible set.
    #[verifier::loop_isolation(false)]
    fn append_tasks(&mut self, incoming: &mut Vec<Task>)
        ensures
            final(self)@ == (ContentSnapshot {
                tasks: old(self)@.tasks + old(incoming)@,
                ..old(self)@
            }),
            final(incoming)@.len() == 0,
    {
        let ghost start = self.tasks@;
        let ghost all = incoming@;
        while incoming.len() > 0
            invariant
                incoming@.len() <= all.len(),
                self.tasks@ == start + all.take(all.len() - incoming@.len()),
                incoming@ =~= all.skip(all.len() - incoming@.len()),
                self.state == old(self).state,
                self.service == old(self).service,
                self.parent_list == old(self).parent_list,
                self.generation == old(self).generation,
                self.stream_active == old(self).stream_active,
                start == old(self)@.tasks,
                all == old(incoming)@,
            decreases incoming@.len(),
        {
            let ghost k = all.len() - incoming@.len();
            let t = incoming.remove(0);
            proof {
                assert(t == all[k]);
            }
            self.tasks.push(t);
            proof {
                assert(self.tasks@ =~= start + all.take(k + 1));
                assert(incoming@ =~= all.skip(k + 1));
            }
        }
        proof {
            assert(all.take(all.len() as int) =~= all);
            assert(final(self)@ =~= (ContentSnapshot {
                tasks: old(self)@.tasks + old(incoming)@,
                ..old(self)@
            }));
        }
    }

    /// Takes one streamed task, tagged with the generation of the fetch
    /// that produced it. Arrivals of a superseded fetch are discarded.
    pub fn stream_task(&mut self, generation: u64, task: Task)
        ensures
            final(self)@ == stream_task_next(old(self)@, generation as int, task),
    {
        if generation != self.generation {
            return ;
        }
        let is_custom = match &self.parent_list {
            Some(SidebarList::Custom(_)) => true,
            _ => false,
        };
        if is_custom {
            self.tasks.push(task);
            self.state = ContentState::TasksLoaded;
        }
    }

    /// Takes a streaming fetch's report that it yielded nothing at all,
    /// tagged with its generation. A superseded report is discarded.
    pub fn stream_empty(&mut self, generation: u64)
        ensures
            final(self)@ == stream_empty_next(old(self)@, generation as int),
    {
        if generation == self.generation {
            self.state = ContentState::Empty;
        }
    }

    /// Takes the notification that a provider was disabled.
    pub fn service_disabled(&mut self, service: Service)
        ensures
            final(self)@ == service_disabled_next(old(self)@, service),
    {
        if self.service == service {
            self.state = ContentState::Unselected;
        }
    }

    /// Re-parents a task about to be added: within a custom selection the
    /// task adopts the selected list as its parent; under any other
    /// selection nothing may be added and the task comes back unchanged.
    pub fn adopt_task(&self, task: Task) -> (r: Option<Task>)
        ensures
            match self@.parent_list {
                Some(SidebarList::Custom(l)) => r matches Some(t) && t == (Task {
                    parent: l.id,
                    ..task
                }),
                _ => r is None,
            },
    {
        match &self.parent_list {
            Some(SidebarList::Custom(l)) => {
                let mut t = task;
                t.parent = l.id.clone();
                Some(t)
            },
            _ => None,
        }
    }

    /// Takes the provider's acknowledgement that a task was created.
    pub fn task_created(&mut self, task: Task)
        ensures
            final(self)@ == task_created_next(old(self)@, task),
    {
        let is_custom = match &self.parent_list {
            Some(SidebarList::Custom(_)) => true,
            _ => false,
        };
        if is_custom {
            self.tasks.push(task);
            self.state = ContentState::TasksLoaded;
        }
    }

    /// Takes the provider's acknowledgement that the task at `index` was
    /// deleted.
    pub fn remove_task(&mut self, index: usize)
        ensures
            final(self)@ == task_removed_next(old(self)@, index as int),
    {
        if index < self.tasks.len() {
            self.tasks.remove(index);
        }
    }
}

/// Law: selecting a list always passes through Loading.
pub proof fn lemma_select_passes_loading(m: ContentSnapshot)
    ensures
        select_list_next(m).state is Loading,
{
}

/// Law: a load of a smart (virtual) selection settles back at Unselected
/// whatever the fetch returned and however many tasks qualified.
pub proof fn lemma_virtual_load_settles_unselected(
    m: ContentSnapshot,
    list: SidebarList,
    service: Service,
    fetched: Option<Seq<Task>>,
    stream_support: bool,
    now: int,
)
    requires
        is_smart_spec(list),
    ensures
        bulk_fetched_next(
            begin_load_next(select_list_next(m), service),
            list,
            fetched,
            stream_support,
            now,
        ).state is Unselected,
{
}

/// Law: a custom list's non-streaming load settles at Empty exactly when
/// the scoped fetch yielded zero tasks or failed, and at TasksLoaded with
/// exactly the fetched tasks visible when it yielded at least one.
pub proof fn lemma_custom_bulk_load_settles(
    m: ContentSnapshot,
    l: crate::models::List,
    service: Service,
    base: Seq<Task>,
    fetched: Option<Seq<Task>>,
    now: int,
)
    ensures
        ({
            let loaded = custom_fetched_next(
                bulk_fetched_next(
                    begin_load_next(select_list_next(m), service),
                    SidebarList::Custom(l),
                    Some(base),
                    false,
                    now,
                ),
                fetched,
            );
            &&& loaded.state == (match fetched {
                Some(ts) => if ts.len() == 0 {
                    ContentState::Empty
                } else {
                    ContentState::TasksLoaded
                },
                None => ContentState::Empty,
            })
            &&& (match fetched {
                Some(ts) => ts.len() > 0 ==> loaded.tasks == ts,
                None => true,
            })
        }),
{
    let loaded = custom_fetched_next(
        bulk_fetched_next(
            begin_load_next(select_list_next(m), service),
            SidebarList::Custom(l),
            Some(base),
            false,
            now,
        ),
        fetched,
    );
    match fetched {
        Some(ts) => {
            if ts.len() > 0 {
                assert(loaded.tasks =~= ts);
            }
        },
        None => {},
    }
}

/// Law: a streaming load stays at Loading until its stream speaks; the
/// first arrival of its own generation makes the task visible and the state
/// TasksLoaded, and a stream that yields nothing at all settles at Empty.
pub proof fn lemma_custom_stream_load(
    m: ContentSnapshot,
    l: crate::models::List,
    service: Service,
    base: Seq<Task>,
    now: int,
    t: Task,
)
    ensures
        ({
            let started = bulk_fetched_next(
                begin_load_next(select_list_next(m), service),
                SidebarList::Custom(l),
                Some(base),
                true,
                now,
            );
            let g = m.generation + 1;
            &&& started.state is Loading
            &&& started.generation == g
            &&& stream_task_next(started, g, t).state is TasksLoaded
            &&& stream_task_next(started, g, t).tasks == seq![t]
            &&& stream_empty_next(started, g).state is Empty
        }),
{
    let started = bulk_fetched_next(
        begin_load_next(select_list_next(m), service),
        SidebarList::Custom(l),
        Some(base),
        true,
        now,
    );
    let g = m.generation + 1;
    assert(stream_task_next(started, g, t).tasks =~= seq![t]);
}

/// Law: a result tagged with a superseded generation changes nothing, so a
/// fetch aborted late can never leak into a newer selection.
pub proof fn lemma_superseded_stream_discarded(m: ContentSnapshot, g: int, t: Task)
    requires
        g != m.generation,
    ensures
        stream_task_next(m, g, t) == m,
        stream_empty_next(m, g) == m,
{
}

/// Law (the cancellation race): start a streaming load for list A, then
/// select and load any list B. A task arrival still in flight from A's
/// fetch, tagged with A's generation, leaves the state for B untouched.
pub proof fn lemma_cancellation_race(
    m: ContentSnapshot,
    list_a: crate::models::List,
    service_a: Service,
    base_a: Seq<Task>,
    now_a: int,
    list_b: SidebarList,
    service_b: Service,
    fetched_b: Option<Seq<Task>>,
    stream_support_b: bool,
    now_b: int,
    t: Task,
)
    ensures
        ({
            let started_a = bulk_fetched_next(
                begin_load_next(select_list_next(m), service_a),
                SidebarList::Custom(list_a),
                Some(base_a),
                true,
                now_a,
            );
            let g_a = started_a.generation;
            let loaded_b = bulk_fetched_next(
                begin_load_next(select_list_next(started_a), service_b),
                list_b,
                fetched_b,
                stream_support_b,
                now_b,
            );
            stream_task_next(loaded_b, g_a, t) == loaded_b
        }),
{
}

/// The view of an optional fetched task set.
pub open spec fn opt_tasks_view(o: Option<Vec<Task>>) -> Option<Seq<Task>> {
    match o {
        Option::Some(v) => Option::Some(v@),
        Option::None => Option::None,
    }
}

} // verus!
