use timer_server::errors::AppError;
use timer_server::events::{ClientEvents, ClientRegistry};
use timer_server::requests::{
    is_day_timer_task, task_created_message, task_renamed_message, tasks_deleted_message, timer_started_message,
    timer_stopped_message, OperationsWithJobs, TimerCreateRequest, DAY_TIMER_TASK,
};

fn timer(job: &str) -> TimerCreateRequest {
    TimerCreateRequest { job: job.to_string(), started_at: "10:00".to_string(), finished_at: "11:00".to_string() }
}

fn names(v: &[&str]) -> Vec<String> {
    v.iter().map(|s| s.to_string()).collect()
}

#[test]
fn event_names() {
    let cases = [
        (ClientEvents::StartDayTime, "start_day_time"),
        (ClientEvents::DayTimeWriteToDB, "day_time_to_db"),
        (ClientEvents::StopDayTime, "stop_day_time"),
        (ClientEvents::StartTask, "start_task"),
        (ClientEvents::TaskTimeWriteToDB, "task_to_db"),
        (ClientEvents::StopTask, "stop_task"),
        (ClientEvents::CreateTask, "new_task"),
        (ClientEvents::UpdateTask, "update_task"),
        (ClientEvents::DeleteTasks, "delete_tasks"),
    ];
    for (event, name) in cases {
        assert_eq!(event.name(), name);
    }
}

#[test]
fn registry_keeps_only_responsive_clients_in_order() {
    let mut registry = ClientRegistry::new();
    for c in ["a", "b", "c", "d"] {
        registry.add(c);
    }
    assert_eq!(registry.len(), 4);
    assert_eq!(registry.clients(), &vec!["a", "b", "c", "d"]);
    let snapshot = registry.clients().clone();
    let kept = ClientRegistry::retain_responsive(snapshot, &vec![true, false, true, false]);
    assert_eq!(kept, vec!["a", "c"]);
    registry.replace(kept);
    assert_eq!(registry.clients(), &vec!["a", "c"]);
    let all = ClientRegistry::retain_responsive(vec![1, 2, 3], &vec![true, true, true]);
    assert_eq!(all, vec![1, 2, 3]);
    let none = ClientRegistry::retain_responsive(vec![1, 2], &vec![false, false]);
    assert!(none.is_empty());
}

#[test]
fn day_timer_is_recognised() {
    assert!(is_day_timer_task(&DAY_TIMER_TASK.to_string()));
    assert!(!is_day_timer_task(&"coding".to_string()));
    assert!(!is_day_timer_task(&"new_day_timer".to_string()));
}

#[test]
fn started_timer_messages() {
    let m = timer_started_message(&Ok(()), &timer(DAY_TIMER_TASK)).unwrap();
    assert_eq!(m.event, ClientEvents::StartDayTime);
    assert_eq!(m.data, "10:00");
    let m = timer_started_message(&Ok(()), &timer("coding")).unwrap();
    assert_eq!(m.event, ClientEvents::StartTask);
    assert_eq!(m.data, "10:00,coding");
}

#[test]
fn stopped_timer_messages() {
    let m = timer_stopped_message(&Ok(()), &timer(DAY_TIMER_TASK)).unwrap();
    assert_eq!(m.event, ClientEvents::StopDayTime);
    assert_eq!(m.data, "0");
    let m = timer_stopped_message(&Ok(()), &timer("coding")).unwrap();
    assert_eq!(m.event, ClientEvents::StopTask);
    assert_eq!(m.data, "coding");
}

#[test]
fn task_messages() {
    let m = task_created_message(&Ok(()), &OperationsWithJobs { jobs: names(&["write", "read"]) }).unwrap();
    assert_eq!(m.event, ClientEvents::CreateTask);
    assert_eq!(m.data, "write");
    let m = task_renamed_message(&Ok(()), &names(&["old", "new"])).unwrap();
    assert_eq!(m.event, ClientEvents::UpdateTask);
    assert_eq!(m.data, "old,new");
    let m = tasks_deleted_message(&Ok(()), &names(&["a", "b", "c"])).unwrap();
    assert_eq!(m.event, ClientEvents::DeleteTasks);
    assert_eq!(m.data, "a,b,c,");
    let m = tasks_deleted_message(&Ok(()), &Vec::new()).unwrap();
    assert_eq!(m.data, "");
}

#[test]
fn nothing_is_pushed_when_the_operation_failed() {
    let failed: Result<(), AppError> = Err(AppError::NotFound);
    assert!(timer_started_message(&failed, &timer("coding")).is_none());
    assert!(timer_stopped_message(&failed, &timer(DAY_TIMER_TASK)).is_none());
    assert!(task_created_message(&failed, &OperationsWithJobs { jobs: Vec::new() }).is_none());
    assert!(task_renamed_message(&failed, &Vec::new()).is_none());
    assert!(tasks_deleted_message(&failed, &names(&["a"])).is_none());
}
