use vstd::prelude::*;
use crate::errors::AppError;
use crate::models::{NewJob, Timer, User, UserId};
use crate::requests::TimerCreateRequest;

verus! {

/// The job to insert for the user the session token led to; a failed
/// lookup is passed on.
pub fn insert_job_for_user_into_db(user: Result<User, AppError>, job: &String) -> (r: Result<NewJob, AppError>)
    ensures
        match user {
            Ok(u) => r matches Ok(j) && j.job@ == job@ && j.user_id == u.id,
            Err(e) => r matches Err(f) && f == e,
        },
{
    match user {
        Ok(u) => Ok(NewJob { job: job.clone(), user_id: u.id }),
        Err(e) => Err(e),
    }
}

/// The completed timer to insert for the user the session token led to; a
/// failed lookup is passed on.
pub fn insert_timer_for_user_into_db(user: Result<User, AppError>, new_timer: &TimerCreateRequest) -> (r: Result<Timer, AppError>)
    ensures
        match user {
            Ok(u) => r matches Ok(t) && t.user_id == u.id && t.job@ == new_timer.job@
                && t.started_at@ == new_timer.started_at@ && t.finished_at@ == new_timer.finished_at@,
            Err(e) => r matches Err(f) && f == e,
        },
{
    match user {
        Ok(u) => Ok(create_timer_for_job(&u, new_timer)),
        Err(e) => Err(e),
    }
}

/// The completed timer to insert for a user's job.
pub fn create_timer_for_job(user: &User, new_timer: &TimerCreateRequest) -> (t: Timer)
    ensures
        t.user_id == user.id,
        t.job@ == new_timer.job@,
        t.started_at@ == new_timer.started_at@,
        t.finished_at@ == new_timer.finished_at@,
{
    Timer {
        user_id: user.id,
        job: new_timer.job.clone(),
        started_at: new_timer.started_at.clone(),
        finished_at: new_timer.finished_at.clone(),
    }
}

/// Whose jobs to fetch: the user the session token led to; a failed lookup
/// is passed on.
pub fn fetch_all_jobs_for_user(user: Result<User, AppError>) -> (r: Result<UserId, AppError>)
    ensures
        match user {
            Ok(u) => r == Ok::<UserId, AppError>(u.id),
            Err(e) => r matches Err(f) && f == e,
        },
{
    match user {
        Ok(u) => Ok(u.id),
        Err(e) => Err(e),
    }
}

} // verus!
