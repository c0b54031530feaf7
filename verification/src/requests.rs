use vstd::prelude::*;
use vstd::string::*;
use crate::errors::AppError;
use crate::events::{BroadcastMessage, ClientEvents};

verus! {

/// Credentials sent to sign up or sign in.
#[derive(Debug, Clone)]
pub struct AuthenticationRequest {
    pub login: String,
    pub password: String,
}

/// A timer sent by a client: the task it runs for and when it started and
/// finished.
#[derive(Debug, Clone)]
pub struct TimerCreateRequest {
    pub job: String,
    pub started_at: String,
    pub finished_at: String,
}

/// A list of task names sent by a client.
#[derive(Debug, Clone)]
pub struct OperationsWithJobs {
    pub jobs: Vec<String>,
}

/// The task name under which clients run the timer of the whole working day.
pub const DAY_TIMER_TASK: &'static str = "new_day_timer!^%$(^J:";

/// Whether a timer runs for the working day rather than for a task.
pub open spec fn is_day_timer(task: Seq<char>) -> bool {
    task == DAY_TIMER_TASK@
}

pub fn is_day_timer_task(task: &String) -> (b: bool)
    ensures
        b == is_day_timer(task@),
{
    let day = String::from_str(DAY_TIMER_TASK);
    *task == day
}

/// The message announcing a newly created task: its name, the first one sent.
pub open spec fn spec_task_created(tasks: Seq<String>) -> (Seq<char>, ClientEvents) {
    (tasks[0]@, ClientEvents::CreateTask)
}

fn task_created_message_text(request: &OperationsWithJobs) -> (m: BroadcastMessage)
    requires
        request.jobs@.len() > 0,
    ensures
        (m.data@, m.event) == spec_task_created(request.jobs@),
{
    BroadcastMessage { event: ClientEvents::CreateTask, data: request.jobs[0].clone() }
}

/// The message announcing a started timer: the start time alone for the
/// working day, else the start time and the task, separated by a comma.
pub open spec fn spec_timer_started(timer: TimerCreateRequest) -> (Seq<char>, ClientEvents) {
    if is_day_timer(timer.job@) {
        (timer.started_at@, ClientEvents::StartDayTime)
    } else {
        (timer.started_at@ + ","@ + timer.job@, ClientEvents::StartTask)
    }
}

fn timer_started_message_text(timer: &TimerCreateRequest) -> (m: BroadcastMessage)
    ensures
        (m.data@, m.event) == spec_timer_started(*timer),
{
    if is_day_timer_task(&timer.job) {
        BroadcastMessage { event: ClientEvents::StartDayTime, data: timer.started_at.clone() }
    } else {
        let mut data = timer.started_at.clone();
        data.append(",");
        data.append(timer.job.as_str());
        BroadcastMessage { event: ClientEvents::StartTask, data }
    }
}

/// The message announcing a stopped (finished or deleted) timer: `0` for the
/// working day, else the task.
pub open spec fn spec_timer_stopped(timer: TimerCreateRequest) -> (Seq<char>, ClientEvents) {
    if is_day_timer(timer.job@) {
        ("0"@, ClientEvents::StopDayTime)
    } else {
        (timer.job@, ClientEvents::StopTask)
    }
}

fn timer_stopped_message_text(timer: &TimerCreateRequest) -> (m: BroadcastMessage)
    ensures
        (m.data@, m.event) == spec_timer_stopped(*timer),
{
    if is_day_timer_task(&timer.job) {
        BroadcastMessage { event: ClientEvents::StopDayTime, data: String::from_str("0") }
    } else {
        BroadcastMessage { event: ClientEvents::StopTask, data: timer.job.clone() }
    }
}

/// The message announcing a renamed task: old and new name separated by a
/// comma.
pub open spec fn spec_task_renamed(names: Seq<String>) -> (Seq<char>, ClientEvents) {
    (names[0]@ + ","@ + names[1]@, ClientEvents::UpdateTask)
}

fn task_renamed_message_text(names: &Vec<String>) -> (m: BroadcastMessage)
    requires
        names@.len() >= 2,
    ensures
        (m.data@, m.event) == spec_task_renamed(names@),
{
    let mut data = names[0].clone();
    data.append(",");
    data.append(names[1].as_str());
    BroadcastMessage { event: ClientEvents::UpdateTask, data }
}

/// Every name followed by a comma, in order.
pub open spec fn comma_terminated(names: Seq<String>) -> Seq<char>
    decreases names.len(),
{
    if names.len() == 0 {
        Seq::empty()
    } else {
        comma_terminated(names.drop_last()) + names.last()@ + ","@
    }
}

/// The message announcing deleted tasks: each name followed by a comma.
pub open spec fn spec_tasks_deleted(names: Seq<String>) -> (Seq<char>, ClientEvents) {
    (comma_terminated(names), ClientEvents::DeleteTasks)
}

fn tasks_deleted_message_text(names: &Vec<String>) -> (m: BroadcastMessage)
    ensures
        (m.data@, m.event) == spec_tasks_deleted(names@),
{
    let mut data = String::new();
    let mut i: usize = 0;
    while i < names.len()
        invariant
            i <= names@.len(),
            data@ == comma_terminated(names@.take(i as int)),
        decreases names@.len() - i,
    {
        proof {
            assert(names@.take(i + 1).drop_last() =~= names@.take(i as int));
        }
        data.append(names[i].as_str());
        data.append(",");
        i = i + 1;
    }
    proof {
        assert(names@.take(i as int) =~= names@);
    }
    BroadcastMessage { event: ClientEvents::DeleteTasks, data }
}

/// Whether the operation a message announces went through.
pub open spec fn succeeded(outcome: Result<(), AppError>) -> bool {
    outcome is Ok
}

/// What to push to clients after creating a task: its name, only when the
/// task was stored.
pub fn task_created_message(outcome: &Result<(), AppError>, request: &OperationsWithJobs) -> (m: Option<BroadcastMessage>)
    requires
        succeeded(*outcome) ==> request.jobs@.len() > 0,
    ensures
        match m {
            Some(msg) => succeeded(*outcome) && (msg.data@, msg.event) == spec_task_created(request.jobs@),
            None => !succeeded(*outcome),
        },
{
    match outcome {
        Ok(()) => Some(task_created_message_text(request)),
        Err(_) => None,
    }
}

/// What to push to clients after starting a timer, only when it was stored.
pub fn timer_started_message(outcome: &Result<(), AppError>, timer: &TimerCreateRequest) -> (m: Option<BroadcastMessage>)
    ensures
        match m {
            Some(msg) => succeeded(*outcome) && (msg.data@, msg.event) == spec_timer_started(*timer),
            None => !succeeded(*outcome),
        },
{
    match outcome {
        Ok(()) => Some(timer_started_message_text(timer)),
        Err(_) => None,
    }
}

/// What to push to clients after finishing or deleting a timer, only when
/// the database took the change.
pub fn timer_stopped_message(outcome: &Result<(), AppError>, timer: &TimerCreateRequest) -> (m: Option<BroadcastMessage>)
    ensures
        match m {
            Some(msg) => succeeded(*outcome) && (msg.data@, msg.event) == spec_timer_stopped(*timer),
            None => !succeeded(*outcome),
        },
{
    match outcome {
        Ok(()) => Some(timer_stopped_message_text(timer)),
        Err(_) => None,
    }
}

/// What to push to clients after renaming a task, only when it was renamed.
pub fn task_renamed_message(outcome: &Result<(), AppError>, names: &Vec<String>) -> (m: Option<BroadcastMessage>)
    requires
        succeeded(*outcome) ==> names@.len() >= 2,
    ensures
        match m {
            Some(msg) => succeeded(*outcome) && (msg.data@, msg.event) == spec_task_renamed(names@),
            None => !succeeded(*outcome),
        },
{
    match outcome {
        Ok(()) => Some(task_renamed_message_text(names)),
        Err(_) => None,
    }
}

/// What to push to clients after deleting tasks, only when they were deleted.
pub fn tasks_deleted_message(outcome: &Result<(), AppError>, names: &Vec<String>) -> (m: Option<BroadcastMessage>)
    ensures
        match m {
            Some(msg) => succeeded(*outcome) && (msg.data@, msg.event) == spec_tasks_deleted(names@),
            None => !succeeded(*outcome),
        },
{
    match outcome {
        Ok(()) => Some(tasks_deleted_message_text(names)),
        Err(_) => None,
    }
}

/// Whether a timer's task is exactly the working-day marker.
proof fn law_day_timer_is_exact_name(task: Seq<char>)
    ensures
        is_day_timer(task) <==> task == DAY_TIMER_TASK@,
{
}

/// A started timer is announced as the working day starting only when its task
/// is exactly the day-timer marker, with its start time as data; any other
/// task, whatever its length, is announced as a task starting, with the start
/// time, a comma and the task.
pub proof fn law_timer_started(timer: TimerCreateRequest)
    ensures
        timer.job@ == DAY_TIMER_TASK@ ==> spec_timer_started(timer) == (timer.started_at@, ClientEvents::StartDayTime),
        timer.job@ != DAY_TIMER_TASK@ ==> spec_timer_started(timer)
            == (timer.started_at@ + seq![','] + timer.job@, ClientEvents::StartTask),
{
    law_day_timer_is_exact_name(timer.job@);
    assert(","@ == seq![',']) by {
        reveal_strlit(",");
    }
}

/// A stopped timer is announced as the working day stopping (data `0`) only
/// when its task is exactly the day-timer marker; any other task is announced
/// as that task stopping.
pub proof fn law_timer_stopped(timer: TimerCreateRequest)
    ensures
        timer.job@ == DAY_TIMER_TASK@ ==> spec_timer_stopped(timer) == (seq!['0'], ClientEvents::StopDayTime),
        timer.job@ != DAY_TIMER_TASK@ ==> spec_timer_stopped(timer) == (timer.job@, ClientEvents::StopTask),
{
    law_day_timer_is_exact_name(timer.job@);
    assert("0"@ == seq!['0']) by {
        reveal_strlit("0");
    }
}

/// The deleted-tasks message names every deleted task in order, each followed
/// by a comma: deleting no task gives empty data, and deleting one more task
/// appends its name and a comma to what the others give; the event is always
/// `DeleteTasks`. In particular one task `x` gives `x,`.
pub proof fn law_tasks_deleted(names: Seq<String>, name: String)
    ensures
        spec_tasks_deleted(Seq::<String>::empty()).0 == Seq::<char>::empty(),
        spec_tasks_deleted(names.push(name)).0 == spec_tasks_deleted(names).0 + name@ + seq![','],
        spec_tasks_deleted(seq![name]).0 == name@ + seq![','],
        spec_tasks_deleted(names).1 == ClientEvents::DeleteTasks,
        spec_tasks_deleted(names).0.len() == comma_terminated_len(names),
{
    assert(","@ == seq![',']) by {
        reveal_strlit(",");
    }
    assert(names.push(name).drop_last() =~= names);
    assert(seq![name].drop_last() =~= Seq::<String>::empty());
    assert(seq![name] =~= Seq::<String>::empty().push(name));
    lemma_comma_terminated_len(names);
}

/// The total length of names each followed by one separator.
pub open spec fn comma_terminated_len(names: Seq<String>) -> nat
    decreases names.len(),
{
    if names.len() == 0 {
        0
    } else {
        comma_terminated_len(names.drop_last()) + names.last()@.len() + 1
    }
}

proof fn lemma_comma_terminated_len(names: Seq<String>)
    ensures
        spec_tasks_deleted(names).0.len() == comma_terminated_len(names),
    decreases names.len(),
{
    reveal_strlit(",");
    if names.len() > 0 {
        lemma_comma_terminated_len(names.drop_last());
    }
}

/// A created task is announced by the first name sent, as a new task.
pub proof fn law_task_created(names: Seq<String>)
    requires
        names.len() > 0,
    ensures
        spec_task_created(names) == (names[0]@, ClientEvents::CreateTask),
{
}

/// A rename is announced with the old name, a comma and the new name, as a
/// task update.
pub proof fn law_task_renamed(names: Seq<String>)
    requires
        names.len() >= 2,
    ensures
        spec_task_renamed(names).1 == ClientEvents::UpdateTask,
        spec_task_renamed(names).0.len() == names[0]@.len() + 1 + names[1]@.len(),
        spec_task_renamed(names).0.subrange(0, names[0]@.len() as int) == names[0]@,
        spec_task_renamed(names).0[names[0]@.len() as int] == ',',
        spec_task_renamed(names).0.subrange(names[0]@.len() as int + 1, spec_task_renamed(names).0.len() as int) == names[1]@,
{
    reveal_strlit(",");
    let d = spec_task_renamed(names).0;
    assert(d.subrange(0, names[0]@.len() as int) =~= names[0]@);
    assert(d.subrange(names[0]@.len() as int + 1, d.len() as int) =~= names[1]@);
}

} // verus!
