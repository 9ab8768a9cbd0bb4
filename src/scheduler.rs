//! The scheduler: cron cadences per job, advanced by ticks of a polling loop,
//! and the policy that decides what a failed run means for the agent.

use std::str::FromStr;
use vstd::prelude::*;
use crate::schema::JobRunError;

verus! {

/// Whether `expr` is a cron expression that the cron parser accepts.
pub uninterp spec fn cron_valid(expr: Seq<char>) -> bool;

/// The first instant, in milliseconds since the epoch (UTC), that the cron
/// expression `expr` matches strictly after the instant `after`; `None` when
/// the expression does not parse, when it matches nothing later, or when
/// `after` lies outside the range of instants that chrono represents.
pub uninterp spec fn cron_next(expr: Seq<char>, after: int) -> Option<int>;

/// Whitespace, as the cron parser skips it between tokens.
pub open spec fn is_blank(c: char) -> bool {
    c == ' ' || c == '\t' || c == '\n' || c == '\r'
}

pub open spec fn is_digit(c: char) -> bool {
    '0' <= c && c <= '9'
}

pub open spec fn is_letter(c: char) -> bool {
    ('a' <= c && c <= 'z') || ('A' <= c && c <= 'Z')
}

/// The characters that join the parts of one field: a list, a step, a range.
pub open spec fn is_joiner(c: char) -> bool {
    c == ',' || c == '/' || c == '-'
}

/// Whether `a` directly followed by `b` stays inside one field: two digits of
/// one number, two letters of one name, or a joiner on either side.
pub open spec fn joins(a: char, b: char) -> bool {
    (is_digit(a) && is_digit(b)) || (is_letter(a) && is_letter(b)) || is_joiner(a) || is_joiner(b)
}

/// Whether a word (a run of non-blank characters) starts at position `i`.
pub open spec fn starts_word(s: Seq<char>, i: int) -> bool {
    !is_blank(s[i]) && (i == 0 || is_blank(s[i - 1]))
}

/// The number of words among the first `n` characters of `s`.
pub open spec fn word_count(s: Seq<char>, n: int) -> nat
    decreases n,
{
    if n <= 0 {
        0
    } else {
        word_count(s, n - 1) + if starts_word(s, n - 1) {
            1nat
        } else {
            0nat
        }
    }
}

/// Whether the run of digits at `j` holds a digit other than zero.
pub open spec fn digits_nonzero(s: Seq<char>, j: int) -> bool
    decreases s.len() - j,
{
    if j < 0 || j >= s.len() {
        false
    } else if s[j] == '0' {
        digits_nonzero(s, j + 1)
    } else {
        is_digit(s[j])
    }
}

/// Whether the step that a `/` at `j - 1` introduces is a number other than
/// zero, blanks before it skipped.
pub open spec fn step_from(s: Seq<char>, j: int) -> bool
    decreases s.len() - j,
{
    if j < 0 || j >= s.len() {
        false
    } else if is_blank(s[j]) {
        step_from(s, j + 1)
    } else {
        digits_nonzero(s, j)
    }
}

/// The cron expressions this scheduler takes: a shorthand (`@daily`, ...,
/// anything that starts with `@`, which the parser either reads as a
/// shorthand or refuses); or at most six words, each word inside one field,
/// so that there is no year field, with every step a number other than zero.
/// The cron parser stops on a zero step, and its search for the next instant
/// stops when a year field skips the year it starts from on the 29th of
/// February. Shorthands have neither.
pub open spec fn supported_expression(s: Seq<char>) -> bool {
    (s.len() > 0 && s[0] == '@') || supported_fields(s)
}

/// The field form of a supported expression.
pub open spec fn supported_fields(s: Seq<char>) -> bool {
    &&& word_count(s, s.len() as int) <= 6
    &&& forall|i: int|
        0 <= i < s.len() - 1 && !is_blank(#[trigger] s[i]) && !is_blank(s[i + 1]) ==> joins(
            s[i],
            s[i + 1],
        )
    &&& forall|i: int| 0 <= i < s.len() && #[trigger] s[i] == '/' ==> step_from(s, i + 1)
}

/// Whether a schedule is taken: supported, and accepted by the cron parser.
pub open spec fn schedule_accepted(s: Seq<char>) -> bool {
    supported_expression(s) && cron_valid(s)
}

fn blank(c: char) -> (r: bool)
    ensures
        r == is_blank(c),
{
    c == ' ' || c == '\t' || c == '\n' || c == '\r'
}

fn digit(c: char) -> (r: bool)
    ensures
        r == is_digit(c),
{
    '0' <= c && c <= '9'
}

fn joined(a: char, b: char) -> (r: bool)
    ensures
        r == joins(a, b),
{
    let letter_a = ('a' <= a && a <= 'z') || ('A' <= a && a <= 'Z');
    let letter_b = ('a' <= b && b <= 'z') || ('A' <= b && b <= 'Z');
    (digit(a) && digit(b)) || (letter_a && letter_b) || a == ',' || a == '/' || a == '-' || b == ','
        || b == '/' || b == '-'
}

fn nonzero_digits_at(expr: &str, n: usize, j: usize) -> (r: bool)
    requires
        n == expr@.len(),
        j <= n,
    ensures
        r == digits_nonzero(expr@, j as int),
    decreases n - j,
{
    if j >= n {
        false
    } else {
        let c = expr.get_char(j);
        if c == '0' {
            nonzero_digits_at(expr, n, j + 1)
        } else {
            digit(c)
        }
    }
}

fn step_at(expr: &str, n: usize, j: usize) -> (r: bool)
    requires
        n == expr@.len(),
        j <= n,
    ensures
        r == step_from(expr@, j as int),
    decreases n - j,
{
    if j >= n {
        false
    } else if blank(expr.get_char(j)) {
        step_at(expr, n, j + 1)
    } else {
        nonzero_digits_at(expr, n, j)
    }
}

/// Decides whether the scheduler takes the cron expression `expr`.
pub fn is_supported_expression(expr: &str) -> (r: bool)
    ensures
        r == supported_expression(expr@),
{
    let n = expr.unicode_len();
    let ghost s = expr@;
    if n > 0 && expr.get_char(0) == '@' {
        return true;
    }
    let mut words: usize = 0;
    let mut joins_ok = true;
    let mut steps_ok = true;
    let mut i: usize = 0;
    while i < n
        invariant
            n == s.len(),
            s == expr@,
            i <= n,
            words as nat == word_count(s, i as int),
            words <= i,
            joins_ok == forall|k: int|
                0 <= k < i && k < s.len() - 1 && !is_blank(#[trigger] s[k]) && !is_blank(s[k + 1])
                    ==> joins(s[k], s[k + 1]),
            steps_ok == forall|k: int| 0 <= k < i && #[trigger] s[k] == '/' ==> step_from(s, k + 1),
        decreases n - i,
    {
        let c = expr.get_char(i);
        let starts = !blank(c) && (i == 0 || blank(expr.get_char(i - 1)));
        if starts {
            words = words + 1;
        }
        if i + 1 < n {
            let d = expr.get_char(i + 1);
            if !blank(c) && !blank(d) && !joined(c, d) {
                joins_ok = false;
            }
        }
        if c == '/' && !step_at(expr, n, i + 1) {
            steps_ok = false;
        }
        i = i + 1;
    }
    words <= 6 && joins_ok && steps_ok
}

/// Relies on `job_scheduler::Schedule` (the cron crate's `Schedule`) and its
/// `FromStr`: whether the expression parses.
#[verifier::external_body]
fn schedule_parses(expr: &str) -> (r: bool)
    requires
        supported_expression(expr@),
    ensures
        r == cron_valid(expr@),
{
    job_scheduler::Schedule::from_str(expr).is_ok()
}

/// The last instant the scheduler handles: 9999-12-31T23:59:59Z, in
/// milliseconds since the epoch. The cron iterator adds a second to the
/// instant it starts from, which must stay within chrono's range.
pub const LATEST_INSTANT: i64 = 253402300799000;

/// Relies on `job_scheduler::Schedule::after` (cron's schedule iterator): the
/// first matching instant after `after_ms`, read through chrono's millisecond
/// timestamps. Instants before 1970 are left out: cron's years start there,
/// and a search that starts on the 29th of February of an earlier year would
/// land on a 29th of February in a year without one. The instant found is
/// strictly later: cron starts its search a second after `after_ms`.
#[verifier::external_body]
fn schedule_next_after(expr: &str, after_ms: i64) -> (r: Option<i64>)
    requires
        supported_expression(expr@),
        0 <= after_ms <= LATEST_INSTANT,
    ensures
        match r {
            Some(t) => cron_next(expr@, after_ms as int) == Some(t as int) && t > after_ms,
            None => cron_next(expr@, after_ms as int) is None,
        },
{
    let schedule = job_scheduler::Schedule::from_str(expr).ok()?;
    let after = chrono::DateTime::<chrono::Utc>::from_timestamp_millis(after_ms)?;
    schedule.after(&after).next().map(|t| t.timestamp_millis())
}

/// One registered cadence: its cron expression and the instant of the last
/// tick that saw it (none before the first).
#[derive(Debug, Clone)]
pub struct ScheduledJob {
    pub schedule: String,
    pub last_tick: Option<i64>,
}

/// The boundaries of the cadence `expr` after the instant `from` and no
/// later than `now`, in increasing order.
pub open spec fn boundaries(expr: Seq<char>, from: int, now: int) -> Seq<int>
    decreases now - from,
{
    match cron_next(expr, from) {
        Some(t) => if from < t <= now {
            seq![t] + boundaries(expr, t, now)
        } else {
            Seq::empty()
        },
        None => Seq::empty(),
    }
}

/// How many times a tick at `now` attempts `job`: once per boundary of its
/// cadence after its last tick and no later than `now`. The first tick only
/// starts the clock. Boundaries that passed while a run was still going
/// (the agent runs jobs one after another) are each attempted at the next
/// tick.
pub open spec fn due_count(job: ScheduledJob, now: int) -> nat {
    match job.last_tick {
        None => 0,
        Some(last) => boundaries(job.schedule@, last as int, now).len(),
    }
}

/// The positions a tick at `now` attempts among the first `n` jobs: in order
/// of position, each repeated once per boundary it reached.
pub open spec fn due_list(jobs: Seq<ScheduledJob>, now: int, n: int) -> Seq<usize>
    decreases n,
{
    if n <= 0 {
        Seq::empty()
    } else {
        due_list(jobs, now, n - 1) + Seq::new(due_count(jobs[n - 1], now), |k: int| (n - 1) as usize)
    }
}

/// `job` after a tick at `now`.
pub open spec fn ticked(job: ScheduledJob, now: i64) -> ScheduledJob {
    ScheduledJob { schedule: job.schedule, last_tick: Some(now) }
}

/// Every cadence, after a tick at `now`.
pub open spec fn all_ticked(jobs: Seq<ScheduledJob>, now: i64) -> Seq<ScheduledJob> {
    jobs.map_values(|j: ScheduledJob| ticked(j, now))
}

/// Every cadence, after ticks at each instant of `times` in turn.
pub open spec fn all_ticks(jobs: Seq<ScheduledJob>, times: Seq<i64>) -> Seq<ScheduledJob>
    decreases times.len(),
{
    if times.len() == 0 {
        jobs
    } else {
        all_ticked(all_ticks(jobs, times.drop_last()), times.last())
    }
}

/// Over a sequence of ticks, each job's state and how often it is due follow
/// from its own cadence and the tick instants alone: other jobs, and what
/// their runs did, play no part. From the second tick on, a tick attempts a
/// job exactly once per boundary of its cadence after the previous tick and
/// no later than the current one.
pub proof fn lemma_schedule_isolation(jobs: Seq<ScheduledJob>, times: Seq<i64>, k: int, i: int)
    requires
        0 <= k < times.len(),
        0 <= i < jobs.len(),
    ensures
        all_ticks(jobs, times.take(k)).len() == jobs.len(),
        k > 0 ==> all_ticks(jobs, times.take(k))[i] == ticked(jobs[i], times[k - 1]),
        k == 0 ==> all_ticks(jobs, times.take(k))[i] == jobs[i],
        k > 0 ==> due_count(all_ticks(jobs, times.take(k))[i], times[k] as int) == boundaries(
            jobs[i].schedule@,
            times[k - 1] as int,
            times[k] as int,
        ).len(),
    decreases k,
{
    let pre = times.take(k);
    if k == 0 {
        assert(pre.len() == 0);
    } else {
        assert(pre.drop_last() == times.take(k - 1));
        assert(pre.last() == times[k - 1]);
        lemma_schedule_isolation(jobs, times, k - 1, i);
    }
}

/// Why a schedule is refused.
#[derive(Debug)]
pub enum ScheduleError {
    /// The expression is in field form and has more than six words (a year
    /// field), two fields run together, or a zero step.
    UnsupportedSchedule,
    /// The cron parser refuses the expression.
    InvalidSchedule,
}

/// The registered cadences, in order of registration; a job is known by its
/// position.
#[derive(Debug)]
pub struct Scheduler {
    pub jobs: Vec<ScheduledJob>,
}

impl Scheduler {
    /// Every expression is supported and every last tick lies within the
    /// handled range.
    pub open spec fn wf(&self) -> bool {
        forall|k: int|
            0 <= k < self.jobs@.len() ==> supported_expression(
                (#[trigger] self.jobs@[k]).schedule@,
            ) && match self.jobs@[k].last_tick {
                Some(l) => 0 <= l <= LATEST_INSTANT,
                None => true,
            }
    }

    pub fn new() -> (r: Scheduler)
        ensures
            r.jobs@.len() == 0,
            r.wf(),
    {
        Scheduler { jobs: Vec::new() }
    }

    /// Registers a cadence; its position is returned. An expression that is
    /// not supported, or that the cron parser refuses, is refused and nothing
    /// is registered.
    pub fn add(&mut self, schedule: String) -> (r: Result<usize, ScheduleError>)
        requires
            old(self).wf(),
        ensures
            final(self).wf(),
            schedule_accepted(schedule@) ==> r is Ok && r->Ok_0 == old(self).jobs@.len()
                && final(self).jobs@ == old(self).jobs@.push(
                ScheduledJob { schedule, last_tick: None },
            ),
            !supported_expression(schedule@) ==> r matches Err(ScheduleError::UnsupportedSchedule),
            supported_expression(schedule@) && !cron_valid(schedule@) ==> r matches Err(
                ScheduleError::InvalidSchedule,
            ),
            r is Err ==> final(self).jobs@ == old(self).jobs@,
    {
        if !is_supported_expression(schedule.as_str()) {
            Err(ScheduleError::UnsupportedSchedule)
        } else if schedule_parses(schedule.as_str()) {
            let position = self.jobs.len();
            self.jobs.push(ScheduledJob { schedule, last_tick: None });
            assert(forall|k: int| 0 <= k < position ==> self.jobs@[k] == old(self).jobs@[k]);
            Ok(position)
        } else {
            Err(ScheduleError::InvalidSchedule)
        }
    }

    /// Advances every cadence to `now` and returns the positions of the jobs
    /// to attempt: in order of position, each repeated once per boundary of
    /// its cadence that it reached, whatever the other jobs.
    pub fn tick(&mut self, now: i64) -> (r: Vec<usize>)
        requires
            old(self).wf(),
            0 <= now <= LATEST_INSTANT,
        ensures
            final(self).wf(),
            final(self).jobs@ == all_ticked(old(self).jobs@, now),
            r@ == due_list(old(self).jobs@, now as int, old(self).jobs@.len() as int),
    {
        let ghost pre = self.jobs@;
        let mut due: Vec<usize> = Vec::new();
        let mut i: usize = 0;
        while i < self.jobs.len()
            invariant
                i <= self.jobs@.len(),
                self.jobs@.len() == pre.len(),
                self.wf(),
                0 <= now <= LATEST_INSTANT,
                forall|k: int| 0 <= k < i ==> #[trigger] self.jobs@[k] == ticked(pre[k], now),
                forall|k: int| i <= k < pre.len() ==> #[trigger] self.jobs@[k] == pre[k],
                due@ == due_list(pre, now as int, i as int),
            decreases pre.len() - i,
        {
            let ghost base = due@;
            let ghost sch = pre[i as int].schedule@;
            match self.jobs[i].last_tick {
                None => {
                    assert(due@ =~= due_list(pre, now as int, i + 1));
                },
                Some(last) => {
                    let mut from: i64 = last;
                    let ghost mut count: nat = 0;
                    let mut go = true;
                    while go
                        invariant
                            i < self.jobs@.len(),
                            self.jobs@[i as int] == pre[i as int],
                            sch == pre[i as int].schedule@,
                            supported_expression(sch),
                            0 <= from <= LATEST_INSTANT,
                            0 <= now <= LATEST_INSTANT,
                            due@ =~= base + Seq::new(count, |k: int| i),
                            go ==> count + boundaries(sch, from as int, now as int).len() == boundaries(
                                sch,
                                last as int,
                                now as int,
                            ).len(),
                            !go ==> count == boundaries(sch, last as int, now as int).len(),
                        decreases (if go {
                            LATEST_INSTANT - from + 1
                        } else {
                            0
                        }),
                    {
                        match schedule_next_after(self.jobs[i].schedule.as_str(), from) {
                            Some(t) => {
                                if t <= now {
                                    assert(boundaries(sch, from as int, now as int) == seq![t as int]
                                        + boundaries(sch, t as int, now as int));
                                    due.push(i);
                                    proof {
                                        count = count + 1;
                                    }
                                    from = t;
                                } else {
                                    assert(boundaries(sch, from as int, now as int).len() == 0);
                                    go = false;
                                }
                            },
                            None => {
                                assert(boundaries(sch, from as int, now as int).len() == 0);
                                go = false;
                            },
                        }
                    }
                    assert(due@ =~= due_list(pre, now as int, i + 1));
                },
            }
            let schedule = self.jobs[i].schedule.clone();
            self.jobs.set(i, ScheduledJob { schedule, last_tick: Some(now) });
            i = i + 1;
        }
        assert(self.jobs@ =~= all_ticked(pre, now));
        due
    }
}

/// What a failed run means for the agent. The policy applies alike to every
/// error of every job.
#[derive(Debug, Clone, Copy, PartialEq, Eq, Structural)]
pub enum FailurePolicy {
    /// Report the failure and keep scheduling.
    LogAndContinue,
    /// Report the failure and end the process with a non-zero status.
    ExitOnFailure,
}

/// What follows a run.
#[derive(Debug, Clone, Copy, PartialEq, Eq, Structural)]
pub enum Verdict {
    /// Go on with the remaining due jobs and later ticks.
    Continue,
    /// End the process with this status.
    Exit(i32),
}

/// The verdict on a run that failed (or not) under `policy`.
pub open spec fn verdict_for(policy: FailurePolicy, failed: bool) -> Verdict {
    if failed && policy == FailurePolicy::ExitOnFailure {
        Verdict::Exit(1)
    } else {
        Verdict::Continue
    }
}

/// Decides what follows a run from its result.
pub fn on_job_result<E>(policy: FailurePolicy, result: &Result<bool, JobRunError<E>>) -> (r: Verdict)
    ensures
        r == verdict_for(policy, result is Err),
{
    match result {
        Ok(_) => Verdict::Continue,
        Err(_) => match policy {
            FailurePolicy::LogAndContinue => Verdict::Continue,
            FailurePolicy::ExitOnFailure => Verdict::Exit(1),
        },
    }
}

/// The failure policy treats every failed run alike, whatever its error:
/// under `LogAndContinue` no result stops the remaining due jobs or later
/// ticks, and under `ExitOnFailure` every failure ends the process with a
/// non-zero status.
pub proof fn lemma_failure_policy<E>(
    policy: FailurePolicy,
    a: Result<bool, JobRunError<E>>,
    b: Result<bool, JobRunError<E>>,
)
    ensures
        a is Err && b is Err ==> verdict_for(policy, a is Err) == verdict_for(policy, b is Err),
        policy == FailurePolicy::LogAndContinue ==> verdict_for(policy, a is Err) == Verdict::Continue,
        policy == FailurePolicy::ExitOnFailure && a is Err ==> (verdict_for(policy, a is Err) matches Verdict::Exit(c) && c != 0),
        a is Ok ==> verdict_for(policy, a is Err) == Verdict::Continue,
{
}

/// What the control loop saw on its stop channel.
#[derive(Debug, Clone, Copy, PartialEq, Eq, Structural)]
pub enum StopSignal {
    /// Nothing: keep going.
    Empty,
    /// A stop was requested.
    Received,
    /// The channel is gone.
    Disconnected,
}

/// What the control loop does next.
#[derive(Debug, Clone, Copy, PartialEq, Eq, Structural)]
pub enum LoopAction {
    /// Run a tick, then wait for the next one.
    Tick,
    /// Stop scheduling and shut down gracefully.
    Stop,
    /// End the process with this status.
    Exit(i32),
}

/// The control loop's decision for one turn.
pub fn loop_step(signal: StopSignal) -> (r: LoopAction)
    ensures
        signal == StopSignal::Empty ==> r == LoopAction::Tick,
        signal == StopSignal::Received ==> r == LoopAction::Stop,
        signal == StopSignal::Disconnected ==> r == LoopAction::Exit(1),
{
    match signal {
        StopSignal::Empty => LoopAction::Tick,
        StopSignal::Received => LoopAction::Stop,
        StopSignal::Disconnected => LoopAction::Exit(1),
    }
}

} // verus!
