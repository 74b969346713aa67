use mytool_core::content::{ContentModel, ContentState, FetchCommand};
use mytool_core::models::{List, Service, SidebarList, Status, Task};

fn task(id: &str, parent: &str) -> Task {
    Task {
        id: String::from(id),
        parent: String::from(parent),
        title: String::new(),
        status: Status::NotStarted,
        due_date: None,
        favorite: false,
        today: false,
        recurrence: None,
        sub_tasks: Vec::new(),
    }
}

fn list(id: &str) -> List {
    List {
        id: String::from(id),
        name: String::from(id),
        description: String::new(),
        icon: None,
        smart: false,
    }
}

fn ids(tasks: &[Task]) -> Vec<String> {
    tasks.iter().map(|t| t.id.clone()).collect()
}

const NOW: i64 = 1_700_000_000;

#[test]
fn initial_state_is_unselected() {
    let m = ContentModel::new();
    assert_eq!(m.state, ContentState::Unselected);
    assert!(m.tasks.is_empty());
    assert_eq!(m.service, Service::Smart);
    assert!(m.parent_list.is_none());
}

#[test]
fn select_list_passes_through_loading() {
    let mut m = ContentModel::new();
    m.select_list();
    assert_eq!(m.state, ContentState::Loading);
}

#[test]
fn select_list_supersedes_the_previous_fetch() {
    let mut m = ContentModel::new();
    m.select_list();
    let g1 = m.generation;
    m.select_list();
    assert_ne!(m.generation, g1);
    assert!(!m.stream_active);
}

#[test]
fn custom_bulk_load_with_tasks_settles_at_tasks_loaded() {
    let mut m = ContentModel::new();
    m.select_list();
    m.begin_load(Service::Microsoft);
    let cmd = m.bulk_fetched(SidebarList::Custom(list("l1")), Some(vec![]), false, NOW);
    match cmd {
        FetchCommand::BulkFromList(id) => assert_eq!(id, "l1"),
        _ => panic!("expected the scoped bulk fetch"),
    }
    assert_eq!(m.state, ContentState::Loading);
    m.custom_fetched(Some(vec![task("a", "l1"), task("b", "l1")]));
    assert_eq!(m.state, ContentState::TasksLoaded);
    assert_eq!(ids(&m.tasks), vec![String::from("a"), String::from("b")]);
}

#[test]
fn custom_bulk_load_with_zero_tasks_settles_at_empty() {
    let mut m = ContentModel::new();
    m.select_list();
    m.begin_load(Service::Microsoft);
    m.bulk_fetched(SidebarList::Custom(list("l1")), Some(vec![]), false, NOW);
    m.custom_fetched(Some(vec![]));
    assert_eq!(m.state, ContentState::Empty);
    assert!(m.tasks.is_empty());
}

#[test]
fn custom_bulk_load_failure_settles_at_empty() {
    let mut m = ContentModel::new();
    m.select_list();
    m.begin_load(Service::Microsoft);
    m.bulk_fetched(SidebarList::Custom(list("l1")), Some(vec![]), false, NOW);
    m.custom_fetched(None);
    assert_eq!(m.state, ContentState::Empty);
}

#[test]
fn bulk_fetch_failure_keeps_loading_for_a_custom_list() {
    let mut m = ContentModel::new();
    m.select_list();
    m.begin_load(Service::Microsoft);
    let cmd = m.bulk_fetched(SidebarList::Custom(list("l1")), None, false, NOW);
    assert!(matches!(cmd, FetchCommand::Idle));
    assert_eq!(m.state, ContentState::Loading);
}

#[test]
fn virtual_list_load_settles_at_unselected() {
    // the deliberate override: a smart selection never shows TasksLoaded
    let mut m = ContentModel::new();
    m.select_list();
    m.begin_load(Service::Microsoft);
    let cmd = m.bulk_fetched(SidebarList::All, Some(vec![task("a", "l1")]), false, NOW);
    assert!(matches!(cmd, FetchCommand::Idle));
    assert_eq!(m.state, ContentState::Unselected);
    assert_eq!(ids(&m.tasks), vec![String::from("a")]);
}

#[test]
fn virtual_list_load_filters_the_bulk_set() {
    let mut m = ContentModel::new();
    m.select_list();
    m.begin_load(Service::Microsoft);
    let mut starred = task("a", "l1");
    starred.favorite = true;
    m.bulk_fetched(SidebarList::Starred, Some(vec![starred, task("b", "l1")]), false, NOW);
    assert_eq!(ids(&m.tasks), vec![String::from("a")]);
    assert_eq!(m.state, ContentState::Unselected);
}

#[test]
fn streaming_load_shows_tasks_as_they_arrive() {
    let mut m = ContentModel::new();
    m.select_list();
    m.begin_load(Service::Microsoft);
    let cmd = m.bulk_fetched(SidebarList::Custom(list("l1")), Some(vec![]), true, NOW);
    let generation = match cmd {
        FetchCommand::Stream(id, generation) => {
            assert_eq!(id, "l1");
            generation
        },
        _ => panic!("expected a streaming fetch"),
    };
    assert_eq!(m.state, ContentState::Loading);
    assert!(m.stream_active);
    m.stream_task(generation, task("a", "l1"));
    assert_eq!(m.state, ContentState::TasksLoaded);
    m.stream_task(generation, task("b", "l1"));
    assert_eq!(ids(&m.tasks), vec![String::from("a"), String::from("b")]);
}

#[test]
fn streaming_load_with_no_items_settles_at_empty() {
    let mut m = ContentModel::new();
    m.select_list();
    m.begin_load(Service::Microsoft);
    let cmd = m.bulk_fetched(SidebarList::Custom(list("l1")), Some(vec![]), true, NOW);
    let generation = match cmd {
        FetchCommand::Stream(_, generation) => generation,
        _ => panic!("expected a streaming fetch"),
    };
    m.stream_empty(generation);
    assert_eq!(m.state, ContentState::Empty);
}

#[test]
fn cancellation_race_is_closed() {
    // select list A (streaming), then immediately select list B; a task
    // still in flight from A's fetch must not appear in B's visible set
    let mut m = ContentModel::new();
    m.select_list();
    m.begin_load(Service::Microsoft);
    let cmd = m.bulk_fetched(SidebarList::Custom(list("a_list")), Some(vec![]), true, NOW);
    let generation_a = match cmd {
        FetchCommand::Stream(_, generation) => generation,
        _ => panic!("expected a streaming fetch"),
    };
    m.select_list();
    m.begin_load(Service::Microsoft);
    m.bulk_fetched(SidebarList::Custom(list("b_list")), Some(vec![]), false, NOW);
    m.custom_fetched(Some(vec![task("b1", "b_list")]));
    m.stream_task(generation_a, task("a1", "a_list"));
    assert_eq!(ids(&m.tasks), vec![String::from("b1")]);
    assert_eq!(m.state, ContentState::TasksLoaded);
    m.stream_empty(generation_a);
    assert_eq!(m.state, ContentState::TasksLoaded);
}

#[test]
fn service_disabled_resets_the_active_service() {
    let mut m = ContentModel::new();
    m.select_list();
    m.begin_load(Service::Microsoft);
    m.bulk_fetched(SidebarList::Custom(list("l1")), Some(vec![]), false, NOW);
    m.custom_fetched(Some(vec![task("a", "l1")]));
    m.service_disabled(Service::Smart);
    assert_eq!(m.state, ContentState::TasksLoaded);
    m.service_disabled(Service::Microsoft);
    assert_eq!(m.state, ContentState::Unselected);
}

#[test]
fn adopt_task_reparents_only_under_a_custom_selection() {
    let mut m = ContentModel::new();
    m.select_list();
    m.begin_load(Service::Microsoft);
    m.bulk_fetched(SidebarList::Custom(list("l1")), Some(vec![]), false, NOW);
    let adopted = m.adopt_task(task("t", "elsewhere")).expect("custom selection adopts");
    assert_eq!(adopted.parent, "l1");
    let mut unselected = ContentModel::new();
    assert!(unselected.adopt_task(task("t", "elsewhere")).is_none());
    unselected.select_list();
    unselected.begin_load(Service::Microsoft);
    unselected.bulk_fetched(SidebarList::All, Some(vec![]), false, NOW);
    assert!(unselected.adopt_task(task("t", "elsewhere")).is_none());
}

#[test]
fn created_and_removed_tasks_update_the_visible_set() {
    let mut m = ContentModel::new();
    m.select_list();
    m.begin_load(Service::Microsoft);
    m.bulk_fetched(SidebarList::Custom(list("l1")), Some(vec![]), false, NOW);
    m.custom_fetched(Some(vec![task("a", "l1")]));
    m.task_created(task("b", "l1"));
    assert_eq!(ids(&m.tasks), vec![String::from("a"), String::from("b")]);
    m.remove_task(0);
    assert_eq!(ids(&m.tasks), vec![String::from("b")]);
    m.remove_task(5);
    assert_eq!(ids(&m.tasks), vec![String::from("b")]);
}

#[test]
fn clean_and_set_state() {
    let mut m = ContentModel::new();
    m.set_state(ContentState::TasksLoaded);
    assert_eq!(m.state, ContentState::TasksLoaded);
    m.clean();
    assert_eq!(m.state, ContentState::Unselected);
}
