use mytool_core::models::{Status, SubTask, Task};
use mytool_core::provider::{ProviderError, TodoProvider};
use mytool_core::smart::Smart;

#[test]
fn smart_provider_reports_no_capabilities() {
    let s = Smart::new();
    assert!(!s.available());
    assert!(!s.stream_support());
}

#[test]
fn smart_provider_auth_is_vacuous() {
    let mut s = Smart::new();
    assert!(s.login().is_ok());
    assert!(s.logout().is_ok());
    assert!(s.handle_uri_params(String::from("app://callback?code=1")).is_ok());
}

#[test]
fn smart_provider_reads_are_empty_or_default() {
    let mut s = Smart::new();
    assert!(s.read_tasks().unwrap().is_empty());
    assert!(s.read_tasks_from_list(String::from("l1")).unwrap().is_empty());
    assert!(s.read_lists().unwrap().is_empty());
    let t = s.read_task(String::from("l1"), String::from("t1")).unwrap();
    assert_eq!(t.id, "");
    assert_eq!(t.status, Status::NotStarted);
    assert!(t.due_date.is_none());
    let l = s.read_list(String::from("l1")).unwrap();
    assert_eq!(l.id, "");
    assert!(!l.smart);
}

#[test]
fn smart_provider_mutations_are_vacuous() {
    let mut s = Smart::new();
    assert!(s.create_task(Task::default()).is_ok());
    assert!(s.update_task(Task::default()).is_ok());
    assert!(s.delete_task(String::from("l1"), String::from("t1")).is_ok());
    assert!(s.create_list(Default::default()).is_ok());
    assert!(s.update_list(Default::default()).is_ok());
    assert!(s.delete_list(String::from("l1")).is_ok());
}

#[test]
fn streaming_from_the_smart_provider_is_unsupported() {
    // requesting a stream without stream support is a caller defect and
    // fails loudly with the unsupported-operation error
    let mut s = Smart::new();
    assert_eq!(s.get_tasks(String::from("l1")).unwrap_err(), ProviderError::Unsupported);
    assert_eq!(s.get_lists().unwrap_err(), ProviderError::Unsupported);
}

#[test]
fn sub_task_updates() {
    let mut sub = SubTask {
        id: String::from("s1"),
        title: String::from("milk"),
        status: Status::NotStarted,
    };
    sub.set_completed(true);
    assert_eq!(sub.status, Status::Completed);
    sub.set_completed(false);
    assert_eq!(sub.status, Status::NotStarted);
    sub.set_title(String::from("oat milk"));
    assert_eq!(sub.title, "oat milk");
    assert_eq!(sub.id, "s1");
}
