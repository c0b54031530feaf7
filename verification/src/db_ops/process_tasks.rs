use vstd::prelude::*;
use vstd::string::*;
use crate::errors::{AppError, DbFailure};
use crate::models::{FetchTimer, NewTask, NewTimer, Task, User};
use crate::requests::{OperationsWithJobs, TimerCreateRequest};

verus! {

/// The group every new task is filed under.
pub const DEFAULT_TASK_GROUP: &'static str = "DELETE GROUP";

/// The names of the user's tasks, in order.
pub open spec fn task_names(tasks: Seq<Task>) -> Seq<Seq<char>> {
    tasks.map_values(|t: Task| t.task@)
}

/// The data a client starts with: the names of its tasks and its running
/// timers.
pub fn fetch_init_data_for_user(tasks: &Vec<Task>, timers: Vec<FetchTimer>) -> (r: (OperationsWithJobs, Vec<FetchTimer>))
    ensures
        r.0.jobs@.map_values(|s: String| s@) == task_names(tasks@),
        r.1@ == timers@,
{
    let mut names: Vec<String> = Vec::new();
    let mut i: usize = 0;
    while i < tasks.len()
        invariant
            i <= tasks@.len(),
            names@.map_values(|s: String| s@) == task_names(tasks@.take(i as int)),
        decreases tasks@.len() - i,
    {
        let ghost before = names@;
        let name = tasks[i].task.clone();
        names.push(name);
        proof {
            assert(names@ == before.push(name));
            assert(names@.map_values(|s: String| s@) =~= before.map_values(|s: String| s@).push(name@));
            assert(task_names(tasks@.take(i + 1)) =~= task_names(tasks@.take(i as int)).push(tasks@[i as int].task@));
        }
        i = i + 1;
    }
    proof {
        assert(tasks@.take(i as int) =~= tasks@);
    }
    (OperationsWithJobs { jobs: names }, timers)
}

/// The task to insert for the user the session token led to: the first name
/// sent, in the default group; a failed lookup is passed on.
pub fn create_task_for_user_into_db(user: Result<User, AppError>, task: &OperationsWithJobs) -> (r: Result<NewTask, AppError>)
    requires
        user is Ok ==> task.jobs@.len() > 0,
    ensures
        match user {
            Ok(u) => r matches Ok(t) && t.task@ == task.jobs@[0]@ && t.task_group@ == DEFAULT_TASK_GROUP@
                && t.user_id == u.id,
            Err(e) => r matches Err(f) && f == e,
        },
{
    match user {
        Ok(u) => Ok(NewTask {
            task: task.jobs[0].clone(),
            task_group: String::from_str(DEFAULT_TASK_GROUP),
            user_id: u.id,
        }),
        Err(e) => Err(e),
    }
}

/// The running timer to insert for the user the session token led to; a
/// failed lookup is answered `OperationCanceled`, whatever the failure.
pub fn insert_timer_for_user_into_db(user: Result<User, AppError>, new_timer: &TimerCreateRequest) -> (r: Result<NewTimer, AppError>)
    ensures
        match user {
            Ok(u) => r matches Ok(t) && t.user_id == u.id && t.task@ == new_timer.job@
                && t.started_at@ == new_timer.started_at@,
            Err(_) => r matches Err(f) && f == AppError::OperationCanceled,
        },
{
    match user {
        Ok(u) => Ok(create_timer_for_task(&u, new_timer)),
        Err(_) => Err(AppError::OperationCanceled),
    }
}

/// The running timer to insert for a user's task.
pub fn create_timer_for_task(user: &User, new_timer: &TimerCreateRequest) -> (t: NewTimer)
    ensures
        t.user_id == user.id,
        t.task@ == new_timer.job@,
        t.started_at@ == new_timer.started_at@,
{
    NewTimer { user_id: user.id, task: new_timer.job.clone(), started_at: new_timer.started_at.clone() }
}

/// A task rename: the first name is the old one, the second the new one.
pub fn update_job(job_to_update: &Vec<String>) -> (r: (String, String))
    requires
        job_to_update@.len() >= 2,
    ensures
        r.0@ == job_to_update@[0]@,
        r.1@ == job_to_update@[1]@,
{
    (job_to_update[0].clone(), job_to_update[1].clone())
}

/// A statement's result with its row count dropped, as answered.
pub open spec fn spec_statement_outcome(r: Result<usize, DbFailure>) -> Result<(), AppError> {
    match r {
        Ok(_) => Ok(()),
        Err(f) => Err(AppError::spec_from_db(f)),
    }
}

pub fn statement_outcome(r: Result<usize, DbFailure>) -> (a: Result<(), AppError>)
    ensures
        a == spec_statement_outcome(r),
{
    match r {
        Ok(_) => Ok(()),
        Err(f) => Err(AppError::from_db(f)),
    }
}

/// How setting the finish time of the user's timer went (`updated` is the
/// update statement's result: the number of rows changed, or its failure).
pub fn insert_finished_at_to_timer(updated: Result<usize, DbFailure>) -> (r: Result<(), AppError>)
    ensures
        r == spec_statement_outcome(updated),
{
    statement_outcome(updated)
}

/// How deleting the user's timer went (`deleted` is the delete statement's
/// result).
pub fn detele_timer_from_db(deleted: Result<usize, DbFailure>) -> (r: Result<(), AppError>)
    ensures
        r == spec_statement_outcome(deleted),
{
    statement_outcome(deleted)
}

/// How deleting the user's tasks went (`deleted` is the delete statement's
/// result).
pub fn delete_task(deleted: Result<usize, DbFailure>) -> (r: Result<(), AppError>)
    ensures
        r == spec_statement_outcome(deleted),
{
    statement_outcome(deleted)
}

} // verus!
