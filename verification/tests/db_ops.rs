use timer_server::db_ops::job;
use timer_server::db_ops::process_tasks;
use timer_server::db_ops::{classified, fetch_token, get_user_by_token, unclassified};
use timer_server::errors::{AppError, DbErrorKind, DbFailure};
use timer_server::models::{AccessRights, FetchTimer, Task, Token, User};
use timer_server::requests::{OperationsWithJobs, TimerCreateRequest};

fn user() -> User {
    User { id: 9, username: "u".to_string(), access_rights: AccessRights::User, company: None, secret: "s".to_string() }
}

fn timer() -> TimerCreateRequest {
    TimerCreateRequest { job: "coding".to_string(), started_at: "09:00".to_string(), finished_at: "10:00".to_string() }
}

fn failure(kind: DbErrorKind) -> DbFailure {
    DbFailure { kind, detail: "d".to_string() }
}

#[test]
fn statement_results_are_classified_or_not() {
    assert_eq!(classified::<u8>(Ok(1)), Ok(1));
    assert_eq!(classified::<u8>(Err(failure(DbErrorKind::NotNullViolation))), Err(AppError::NotNullViolation));
    assert_eq!(
        unclassified::<u8>(Err(failure(DbErrorKind::NotNullViolation))),
        Err(AppError::DatabaseError(failure(DbErrorKind::NotNullViolation)))
    );
    assert_eq!(get_user_by_token(Err(failure(DbErrorKind::NotFound))).unwrap_err(), AppError::NotFound);
    assert_eq!(get_user_by_token(Ok(user())).unwrap().id, 9);
    let t = fetch_token(Ok(Token { token: "t".to_string(), user_id: 9 })).unwrap();
    assert_eq!(t.token, "t");
}

#[test]
fn job_rows() {
    let j = job::insert_job_for_user_into_db(Ok(user()), &"build".to_string()).unwrap();
    assert_eq!((j.job.as_str(), j.user_id), ("build", 9));
    assert_eq!(job::insert_job_for_user_into_db(Err(AppError::NotFound), &"x".to_string()).unwrap_err(), AppError::NotFound);
    let t = job::insert_timer_for_user_into_db(Ok(user()), &timer()).unwrap();
    assert_eq!((t.user_id, t.job.as_str(), t.started_at.as_str(), t.finished_at.as_str()), (9, "coding", "09:00", "10:00"));
    assert_eq!(job::insert_timer_for_user_into_db(Err(AppError::NotFound), &timer()).unwrap_err(), AppError::NotFound);
    assert_eq!(job::fetch_all_jobs_for_user(Ok(user())), Ok(9));
    assert_eq!(job::fetch_all_jobs_for_user(Err(AppError::UnauthorizedUser)), Err(AppError::UnauthorizedUser));
    assert_eq!(job::create_timer_for_job(&user(), &timer()).job, "coding");
}

#[test]
fn task_rows() {
    let t = process_tasks::create_task_for_user_into_db(Ok(user()), &OperationsWithJobs { jobs: vec!["a".to_string(), "b".to_string()] }).unwrap();
    assert_eq!((t.task.as_str(), t.task_group.as_str(), t.user_id), ("a", "DELETE GROUP", 9));
    assert_eq!(
        process_tasks::create_task_for_user_into_db(Err(AppError::NotFound), &OperationsWithJobs { jobs: vec![] }).unwrap_err(),
        AppError::NotFound
    );
    let n = process_tasks::insert_timer_for_user_into_db(Ok(user()), &timer()).unwrap();
    assert_eq!((n.user_id, n.task.as_str(), n.started_at.as_str()), (9, "coding", "09:00"));
    assert_eq!(
        process_tasks::insert_timer_for_user_into_db(Err(AppError::NotFound), &timer()).unwrap_err(),
        AppError::OperationCanceled
    );
    assert_eq!(process_tasks::update_job(&vec!["old".to_string(), "new".to_string()]), ("old".to_string(), "new".to_string()));
}

#[test]
fn initial_data_lists_task_names_and_running_timers() {
    let tasks = vec![Task { task: "a".to_string(), user_id: 9 }, Task { task: "b".to_string(), user_id: 9 }];
    let timers = vec![FetchTimer { task: "a".to_string(), started_at: "08:00".to_string() }];
    let (ops, running) = process_tasks::fetch_init_data_for_user(&tasks, timers);
    assert_eq!(ops.jobs, vec!["a".to_string(), "b".to_string()]);
    assert_eq!(running.len(), 1);
    assert_eq!(running[0].started_at, "08:00");
}

#[test]
fn single_statement_outcomes() {
    assert_eq!(process_tasks::insert_finished_at_to_timer(Ok(1)), Ok(()));
    assert_eq!(process_tasks::insert_finished_at_to_timer(Ok(0)), Ok(()));
    assert_eq!(process_tasks::detele_timer_from_db(Err(failure(DbErrorKind::NotFound))), Err(AppError::NotFound));
    assert_eq!(process_tasks::delete_task(Err(failure(DbErrorKind::UniqueViolation))), Err(AppError::UsernameAlreadyInUse));
    assert_eq!(process_tasks::statement_outcome(Ok(3)), Ok(()));
    assert_eq!(
        process_tasks::statement_outcome(Err(failure(DbErrorKind::Other))),
        Err(AppError::DatabaseError(failure(DbErrorKind::Other)))
    );
}
