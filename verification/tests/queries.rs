use mytool_core::models::{List, SidebarList, Status, Task};
use mytool_core::queries::{day_number, is_within_next_7_days, select_tasks, within_next_7_days};

fn task(id: &str, parent: &str) -> Task {
    Task {
        id: String::from(id),
        parent: String::from(parent),
        title: String::new(),
        status: Status::NotStarted,
        due_date: None,
        favorite: false,
        today: false,
        recurrence: None,
        sub_tasks: Vec::new(),
    }
}

fn ids(tasks: &[Task]) -> Vec<String> {
    tasks.iter().map(|t| t.id.clone()).collect()
}

const NOW: i64 = 1_700_000_000;
const DAY: i64 = 86_400;
const WEEK: i64 = 604_800;

#[test]
fn day_number_at_the_epoch_boundaries() {
    assert_eq!(day_number(0), 0);
    assert_eq!(day_number(86_399), 0);
    assert_eq!(day_number(86_400), 1);
    assert_eq!(day_number(-1), -1);
    assert_eq!(day_number(-86_400), -1);
    assert_eq!(day_number(-86_401), -2);
}

#[test]
fn next7_window_boundaries() {
    assert!(within_next_7_days(NOW, NOW));
    assert!(within_next_7_days(NOW + WEEK, NOW));
    assert!(!within_next_7_days(NOW + WEEK + 1, NOW));
    assert!(!within_next_7_days(NOW - 1, NOW));
}

#[test]
fn today_includes_due_today_without_flag() {
    let mut due_today = task("a", "l");
    due_today.due_date = Some(NOW - NOW % DAY + 3600);
    let mut due_yesterday = task("b", "l");
    due_yesterday.due_date = Some(NOW - DAY);
    let shown = select_tasks(&SidebarList::Today, vec![due_today, due_yesterday], NOW);
    assert_eq!(ids(&shown), vec![String::from("a")]);
}

#[test]
fn today_includes_flagged_task_without_due_date() {
    let mut flagged = task("a", "l");
    flagged.today = true;
    let plain = task("b", "l");
    let shown = select_tasks(&SidebarList::Today, vec![flagged, plain], NOW);
    assert_eq!(ids(&shown), vec![String::from("a")]);
}

#[test]
fn today_and_starred_on_a_mixed_set() {
    // one task due now with its flag unset, one flagged task with no due
    // date: Today keeps both, Starred keeps none
    let mut due_now = task("a", "l");
    due_now.due_date = Some(NOW);
    let mut flagged = task("b", "l");
    flagged.today = true;
    let set = vec![due_now, flagged];
    let today = select_tasks(&SidebarList::Today, set.clone(), NOW);
    assert_eq!(ids(&today), vec![String::from("a"), String::from("b")]);
    let starred = select_tasks(&SidebarList::Starred, set, NOW);
    assert!(starred.is_empty());
}

#[test]
fn next7_filter_boundaries() {
    let mut at_the_edge = task("a", "l");
    at_the_edge.due_date = Some(NOW + WEEK);
    let mut one_second_past = task("b", "l");
    one_second_past.due_date = Some(NOW + WEEK + 1);
    let mut overdue = task("c", "l");
    overdue.due_date = Some(NOW - 1);
    let mut undated = task("d", "l");
    undated.due_date = None;
    let shown = select_tasks(
        &SidebarList::Next7Days,
        vec![at_the_edge, one_second_past, overdue, undated],
        NOW,
    );
    assert_eq!(ids(&shown), vec![String::from("a")]);
}

#[test]
fn all_keeps_everything_in_order() {
    let set = vec![task("a", "l"), task("b", "m"), task("c", "l")];
    let shown = select_tasks(&SidebarList::All, set, NOW);
    assert_eq!(ids(&shown), vec![String::from("a"), String::from("b"), String::from("c")]);
}

#[test]
fn starred_keeps_favorites() {
    let mut starred = task("a", "l");
    starred.favorite = true;
    let plain = task("b", "l");
    let shown = select_tasks(&SidebarList::Starred, vec![plain, starred], NOW);
    assert_eq!(ids(&shown), vec![String::from("a")]);
}

#[test]
fn done_keeps_completed() {
    let mut done = task("a", "l");
    done.status = Status::Completed;
    let open = task("b", "l");
    let shown = select_tasks(&SidebarList::Done, vec![done, open], NOW);
    assert_eq!(ids(&shown), vec![String::from("a")]);
}

#[test]
fn custom_keeps_the_lists_own_tasks() {
    let list = List {
        id: String::from("l1"),
        name: String::from("groceries"),
        description: String::new(),
        icon: None,
        smart: false,
    };
    let mine = task("a", "l1");
    let other = task("b", "l2");
    let shown = select_tasks(&SidebarList::Custom(list), vec![mine, other], NOW);
    assert_eq!(ids(&shown), vec![String::from("a")]);
}

#[test]
fn clock_based_window_test() {
    let now = chrono::Utc::now().timestamp();
    assert!(is_within_next_7_days(now + 60));
    assert!(!is_within_next_7_days(now - DAY));
    assert!(!is_within_next_7_days(now + WEEK + DAY));
}
