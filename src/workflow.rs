//! Scheduled expiry of a file: a durable task that waits out the file's time to
//! live, then deletes it, retrying failed deletions a bounded number of times.
//!
//! The task is a state machine. The worker that runs it persists the state after
//! every step, performs the action that the step returns, and feeds back what
//! happened as the next event. After a restart it feeds `Resumed` with the clock,
//! and the task picks up from its persisted state against its original deadline.
use vstd::prelude::*;

verus! {

/// The file to expire and how long it lives, in milliseconds.
pub struct FileExpirationInput {
    pub path: String,
    pub ttl_ms: u64,
}

/// How deletions are retried: at most `max_attempts` tries, each given
/// `attempt_timeout_ms`, with a pause between tries that starts at
/// `initial_backoff_ms` and doubles up to `max_backoff_ms`.
#[derive(PartialEq, Eq, Structural, Clone, Copy, Debug)]
pub struct RetryPolicy {
    pub max_attempts: u32,
    pub attempt_timeout_ms: u64,
    pub initial_backoff_ms: u64,
    pub max_backoff_ms: u64,
}

/// Each deletion try is cut off after ten seconds.
pub const ATTEMPT_TIMEOUT_MS: u64 = 10_000;
/// Tries before a task gives up.
pub const MAX_ATTEMPTS: u32 = 10;
/// The first pause between tries: one second.
pub const INITIAL_BACKOFF_MS: u64 = 1_000;
/// The longest pause between tries: a hundred seconds.
pub const MAX_BACKOFF_MS: u64 = 100_000;

impl RetryPolicy {
    pub open spec fn wf(&self) -> bool {
        self.max_attempts >= 1
    }

    /// Ten attempts of ten seconds each, pausing one second at first and at most
    /// a hundred seconds.
    pub fn standard() -> (r: RetryPolicy)
        ensures
            r.wf(),
            r.max_attempts == MAX_ATTEMPTS,
            r.attempt_timeout_ms == ATTEMPT_TIMEOUT_MS,
            r.initial_backoff_ms == INITIAL_BACKOFF_MS,
            r.max_backoff_ms == MAX_BACKOFF_MS,
    {
        RetryPolicy {
            max_attempts: MAX_ATTEMPTS,
            attempt_timeout_ms: ATTEMPT_TIMEOUT_MS,
            initial_backoff_ms: INITIAL_BACKOFF_MS,
            max_backoff_ms: MAX_BACKOFF_MS,
        }
    }
}

/// Where a task stands.
#[derive(PartialEq, Eq, Structural, Clone, Copy, Debug)]
pub enum TaskState {
    /// Persisted, not yet counting down.
    Scheduled,
    /// Counting down to the deadline.
    Waiting,
    /// Deletion try number `attempt` is running.
    Dispatching { attempt: u32 },
    /// Try number `attempt` failed; the next starts at `retry_at_ms`.
    Retrying { attempt: u32, retry_at_ms: u64 },
    /// The file is gone.
    Completed,
    /// Every try failed; the task gave up.
    Abandoned,
}

/// What happened since the last step.
#[derive(PartialEq, Eq, Structural, Clone, Copy, Debug)]
pub enum TaskEvent {
    /// The worker (re)started the task; the clock reads `now_ms`.
    Resumed { now_ms: u64 },
    /// A timer the task asked for went off; the clock reads `now_ms`.
    TimerFired { now_ms: u64 },
    /// The deletion finished: the file was removed or was already gone.
    DeletionSucceeded,
    /// The deletion failed or timed out; the clock reads `now_ms`.
    DeletionFailed { now_ms: u64 },
}

/// What the worker is to do next.
#[derive(PartialEq, Eq, Structural, Clone, Copy, Debug)]
pub enum TaskAction {
    /// Arm a timer for `until_ms`.
    Wait { until_ms: u64 },
    /// Run try number `attempt` of the deletion, cut off after `timeout_ms`.
    Delete { attempt: u32, timeout_ms: u64 },
    /// The task is done.
    Finish,
    /// The task gave up; report it to the operators.
    GiveUp,
    /// Nothing to do.
    Idle,
}

/// `x + y`, or the largest `u64` where the sum does not fit.
pub open spec fn sat_add(x: u64, y: u64) -> u64 {
    if x + y > u64::MAX {
        u64::MAX
    } else {
        (x + y) as u64
    }
}

/// The pause after try number `attempt` failed: the initial pause, doubled once
/// per earlier try, never above the maximum.
pub open spec fn backoff(p: RetryPolicy, attempt: nat) -> u64
    decreases attempt,
{
    if attempt <= 1 {
        if p.initial_backoff_ms <= p.max_backoff_ms {
            p.initial_backoff_ms
        } else {
            p.max_backoff_ms
        }
    } else {
        let prev = backoff(p, (attempt - 1) as nat);
        if 2 * prev <= p.max_backoff_ms {
            (2 * prev) as u64
        } else {
            p.max_backoff_ms
        }
    }
}

/// Start of a try of the deletion.
pub open spec fn dispatch(p: RetryPolicy, attempt: u32) -> (TaskState, TaskAction) {
    (TaskState::Dispatching { attempt }, TaskAction::Delete { attempt, timeout_ms: p.attempt_timeout_ms })
}

/// The clock read `now` while waiting for `deadline`: delete once it has passed,
/// else wait for it, never for longer.
pub open spec fn count_down(p: RetryPolicy, deadline: u64, now: u64) -> (TaskState, TaskAction) {
    if now >= deadline {
        dispatch(p, 1)
    } else {
        (TaskState::Waiting, TaskAction::Wait { until_ms: deadline })
    }
}

/// One step of a task whose deadline is `deadline`.
pub open spec fn next(s: TaskState, deadline: u64, p: RetryPolicy, e: TaskEvent) -> (TaskState, TaskAction) {
    match (s, e) {
        (TaskState::Scheduled, TaskEvent::Resumed { now_ms }) => count_down(p, deadline, now_ms),
        (TaskState::Scheduled, TaskEvent::TimerFired { now_ms }) => count_down(p, deadline, now_ms),
        (TaskState::Waiting, TaskEvent::Resumed { now_ms }) => count_down(p, deadline, now_ms),
        (TaskState::Waiting, TaskEvent::TimerFired { now_ms }) => count_down(p, deadline, now_ms),
        (TaskState::Dispatching { attempt }, TaskEvent::DeletionSucceeded) => (TaskState::Completed, TaskAction::Finish),
        (TaskState::Dispatching { attempt }, TaskEvent::DeletionFailed { now_ms }) => {
            if attempt >= p.max_attempts {
                (TaskState::Abandoned, TaskAction::GiveUp)
            } else {
                let at = sat_add(now_ms, backoff(p, attempt as nat));
                (TaskState::Retrying { attempt, retry_at_ms: at }, TaskAction::Wait { until_ms: at })
            }
        },
        (TaskState::Dispatching { attempt }, TaskEvent::Resumed { now_ms }) => dispatch(p, attempt),
        (TaskState::Retrying { attempt, retry_at_ms }, TaskEvent::Resumed { now_ms }) => {
            if now_ms >= retry_at_ms {
                dispatch(p, (attempt + 1) as u32)
            } else {
                (s, TaskAction::Wait { until_ms: retry_at_ms })
            }
        },
        (TaskState::Retrying { attempt, retry_at_ms }, TaskEvent::TimerFired { now_ms }) => {
            if now_ms >= retry_at_ms {
                dispatch(p, (attempt + 1) as u32)
            } else {
                (s, TaskAction::Wait { until_ms: retry_at_ms })
            }
        },
        _ => (s, TaskAction::Idle),
    }
}

/// Whether the task has ended.
pub open spec fn is_terminal(s: TaskState) -> bool {
    s == TaskState::Completed || s == TaskState::Abandoned
}

/// Tries are counted from one and never beyond the policy's bound; a task
/// that waits to retry has a try left.
pub open spec fn state_wf(s: TaskState, p: RetryPolicy) -> bool {
    match s {
        TaskState::Dispatching { attempt } => 1 <= attempt <= p.max_attempts,
        TaskState::Retrying { attempt, retry_at_ms } => 1 <= attempt < p.max_attempts,
        _ => true,
    }
}

/// The expiry of one file.
pub struct ExpirationTask {
    pub input: FileExpirationInput,
    /// When the file is due, fixed when the task is made.
    pub deadline_ms: u64,
    pub state: TaskState,
}

impl ExpirationTask {
    /// A task for `input`, made at `created_ms`: due `ttl_ms` later (or at the end
    /// of the clock's range), not yet counting down.
    pub fn new(input: FileExpirationInput, created_ms: u64) -> (r: ExpirationTask)
        ensures
            r.input == input,
            r.deadline_ms == sat_add(created_ms, input.ttl_ms),
            r.state == TaskState::Scheduled,
    {
        let deadline_ms = created_ms.saturating_add(input.ttl_ms);
        ExpirationTask { input, deadline_ms, state: TaskState::Scheduled }
    }

    /// Takes `event` and says what to do next. The deadline and the file never
    /// change; a finished task stays finished and asks for nothing.
    pub fn step(&mut self, policy: &RetryPolicy, event: TaskEvent) -> (a: TaskAction)
        requires
            policy.wf(),
            state_wf(old(self).state, *policy),
        ensures
            (final(self).state, a) == next(old(self).state, old(self).deadline_ms, *policy, event),
            final(self).deadline_ms == old(self).deadline_ms,
            final(self).input == old(self).input,
            state_wf(final(self).state, *policy),
    {
        let (s, a) = next_exec(self.state, self.deadline_ms, policy, event);
        self.state = s;
        a
    }
}

/// The pause after try number `attempt` failed.
pub fn backoff_ms(policy: &RetryPolicy, attempt: u32) -> (r: u64)
    ensures
        r == backoff(*policy, attempt as nat),
        r <= policy.max_backoff_ms,
{
    let mut b: u64 = if policy.initial_backoff_ms <= policy.max_backoff_ms {
        policy.initial_backoff_ms
    } else {
        policy.max_backoff_ms
    };
    let mut k: u32 = 1;
    while k < attempt
        invariant
            1 <= k,
            k <= attempt || (attempt <= 1 && k == 1),
            b == backoff(*policy, k as nat),
            b <= policy.max_backoff_ms,
        decreases attempt - k,
    {
        b = if b > policy.max_backoff_ms / 2 {
            policy.max_backoff_ms
        } else {
            b * 2
        };
        k = k + 1;
    }
    assert(backoff(*policy, attempt as nat) == backoff(*policy, k as nat));
    b
}

fn dispatch_exec(policy: &RetryPolicy, attempt: u32) -> (r: (TaskState, TaskAction))
    ensures
        r == dispatch(*policy, attempt),
{
    (TaskState::Dispatching { attempt }, TaskAction::Delete { attempt, timeout_ms: policy.attempt_timeout_ms })
}

fn count_down_exec(policy: &RetryPolicy, deadline: u64, now: u64) -> (r: (TaskState, TaskAction))
    ensures
        r == count_down(*policy, deadline, now),
{
    if now >= deadline {
        dispatch_exec(policy, 1)
    } else {
        (TaskState::Waiting, TaskAction::Wait { until_ms: deadline })
    }
}

fn retry_exec(policy: &RetryPolicy, attempt: u32, retry_at_ms: u64, now: u64) -> (r: (TaskState, TaskAction))
    requires
        attempt < policy.max_attempts,
    ensures
        r == (if now >= retry_at_ms {
            dispatch(*policy, (attempt + 1) as u32)
        } else {
            (TaskState::Retrying { attempt, retry_at_ms }, TaskAction::Wait { until_ms: retry_at_ms })
        }),
{
    if now >= retry_at_ms {
        dispatch_exec(policy, attempt + 1)
    } else {
        (TaskState::Retrying { attempt, retry_at_ms }, TaskAction::Wait { until_ms: retry_at_ms })
    }
}

/// One step of a task whose deadline is `deadline`, as `next` states it.
pub fn next_exec(state: TaskState, deadline: u64, policy: &RetryPolicy, event: TaskEvent) -> (r: (TaskState, TaskAction))
    requires
        policy.wf(),
        state_wf(state, *policy),
    ensures
        r == next(state, deadline, *policy, event),
        state_wf(r.0, *policy),
{
    match (state, event) {
        (TaskState::Scheduled, TaskEvent::Resumed { now_ms }) => count_down_exec(policy, deadline, now_ms),
        (TaskState::Scheduled, TaskEvent::TimerFired { now_ms }) => count_down_exec(policy, deadline, now_ms),
        (TaskState::Waiting, TaskEvent::Resumed { now_ms }) => count_down_exec(policy, deadline, now_ms),
        (TaskState::Waiting, TaskEvent::TimerFired { now_ms }) => count_down_exec(policy, deadline, now_ms),
        (TaskState::Dispatching { attempt }, TaskEvent::DeletionSucceeded) => (TaskState::Completed, TaskAction::Finish),
        (TaskState::Dispatching { attempt }, TaskEvent::DeletionFailed { now_ms }) => {
            if attempt >= policy.max_attempts {
                (TaskState::Abandoned, TaskAction::GiveUp)
            } else {
                let at = now_ms.saturating_add(backoff_ms(policy, attempt));
                (TaskState::Retrying { attempt, retry_at_ms: at }, TaskAction::Wait { until_ms: at })
            }
        },
        (TaskState::Dispatching { attempt }, TaskEvent::Resumed { now_ms }) => dispatch_exec(policy, attempt),
        (TaskState::Retrying { attempt, retry_at_ms }, TaskEvent::Resumed { now_ms }) =>
            retry_exec(policy, attempt, retry_at_ms, now_ms),
        (TaskState::Retrying { attempt, retry_at_ms }, TaskEvent::TimerFired { now_ms }) =>
            retry_exec(policy, attempt, retry_at_ms, now_ms),
        _ => (state, TaskAction::Idle),
    }
}

/// The state a task reaches from `s` through `events`, in order.
pub open spec fn run(s: TaskState, deadline: u64, p: RetryPolicy, events: Seq<TaskEvent>) -> TaskState
    decreases events.len(),
{
    if events.len() == 0 {
        s
    } else {
        next(run(s, deadline, p, events.drop_last()), deadline, p, events.last()).0
    }
}

/// Whatever events come, and however often the worker restarts, a task never
/// counts a try beyond the policy's bound, and a finished task stays finished.
pub proof fn lemma_run_within_bounds(s: TaskState, deadline: u64, p: RetryPolicy, events: Seq<TaskEvent>)
    requires
        p.wf(),
        state_wf(s, p),
    ensures
        state_wf(run(s, deadline, p, events), p),
        is_terminal(s) ==> run(s, deadline, p, events) == s,
    decreases events.len(),
{
    if events.len() > 0 {
        lemma_run_within_bounds(s, deadline, p, events.drop_last());
    }
}

/// A finished task stays as it is and asks for nothing, whatever comes.
pub proof fn lemma_terminal_absorbing(s: TaskState, deadline: u64, p: RetryPolicy, e: TaskEvent)
    requires
        is_terminal(s),
    ensures
        next(s, deadline, p, e) == (s, TaskAction::Idle),
{
}

/// Before the deletion starts, the only timer the task asks for is its original
/// deadline, however often the worker restarts: the time to live is never counted
/// again from the start. And the deletion never starts before the deadline.
pub proof fn lemma_waits_for_original_deadline(s: TaskState, deadline: u64, p: RetryPolicy, e: TaskEvent)
    requires
        s == TaskState::Scheduled || s == TaskState::Waiting,
    ensures
        next(s, deadline, p, e).1 matches TaskAction::Wait { until_ms } ==> until_ms == deadline,
        next(s, deadline, p, e).1 is Delete ==> match e {
            TaskEvent::Resumed { now_ms } => now_ms >= deadline,
            TaskEvent::TimerFired { now_ms } => now_ms >= deadline,
            _ => false,
        },
{
}

/// Every try the task starts is numbered within the policy's bound, and a failed
/// try either leads to the next one or, at the bound, ends the task.
pub proof fn lemma_attempts_bounded(s: TaskState, deadline: u64, p: RetryPolicy, e: TaskEvent)
    requires
        p.wf(),
        state_wf(s, p),
    ensures
        next(s, deadline, p, e).1 matches TaskAction::Delete { attempt, timeout_ms } ==> 1 <= attempt <= p.max_attempts
            && timeout_ms == p.attempt_timeout_ms,
        (s matches TaskState::Dispatching { attempt } && e is DeletionFailed && attempt == p.max_attempts) ==> next(
            s,
            deadline,
            p,
            e,
        ) == (TaskState::Abandoned, TaskAction::GiveUp),
{
}

} // verus!
