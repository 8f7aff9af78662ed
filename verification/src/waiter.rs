//! The decisions of the waiting loops: when to poll again, how long to back off
//! after a failed request, when to give up, and what changed between polls.
//! The loops themselves (sleeping, sending requests, reporting) run in the
//! application around these state machines.

use vstd::prelude::*;
use crate::builds::{ascii_lowercase_title, state_is_finished, Build};
use crate::client::{request_for, ApiRequest, Buildkite, RequestError};
use crate::text::{title_cased, ascii_lowercase};

verus! {

/// How many failed requests end a wait.
pub const MAX_RETRIES: u64 = 3;

/// Seconds between two polls of an unfinished build.
pub const POLL_INTERVAL_SECS: u64 = 30;

/// The back-off, in seconds, after the `attempts`-th failed request: its square.
pub fn failure_delay(attempts: u64) -> (r: u64)
    requires
        attempts <= u32::MAX,
    ensures
        r == attempts * attempts,
{
    assert(attempts * attempts <= u64::MAX) by (nonlinear_arith)
        requires
            attempts <= u32::MAX,
    ;
    attempts * attempts
}

/// What a waiter reports after each poll.
pub enum WaitStatus {
    /// Keep waiting: the build's state when it was fetched (none after a failed
    /// request), and the seconds until the next poll.
    Continue(Option<String>, u64),
    /// Give up with the last request's error.
    Abort(RequestError),
    /// The build has finished.
    Finished(Build),
}

/// Which kind of report a status is.
#[derive(PartialEq, Eq, Structural, Clone, Copy, Debug)]
pub enum StatusKind {
    Continue,
    Abort,
    Finished,
}

/// The kind of a status.
pub open spec fn kind_of(status: WaitStatus) -> StatusKind {
    match status {
        WaitStatus::Continue(..) => StatusKind::Continue,
        WaitStatus::Abort(_) => StatusKind::Abort,
        WaitStatus::Finished(_) => StatusKind::Finished,
    }
}

/// What happened on one poll, as the waiter's decisions see it.
#[derive(PartialEq, Eq, Structural, Clone, Copy)]
pub enum PollEvent {
    /// The build was fetched and has finished.
    Finished,
    /// The build was fetched and has not finished.
    Running,
    /// The request failed.
    Failed,
}

/// The event that a poll's outcome stands for.
pub open spec fn event_of(outcome: Result<Build, RequestError>) -> PollEvent {
    match outcome {
        Ok(b) => if state_is_finished(b.state@) { PollEvent::Finished } else { PollEvent::Running },
        Err(_) => PollEvent::Failed,
    }
}

/// The number of failed polls among `events`.
pub open spec fn failures(events: Seq<PollEvent>) -> nat
    decreases events.len(),
{
    if events.len() == 0 {
        0
    } else {
        failures(events.drop_last()) + if events.last() == PollEvent::Failed { 1nat } else { 0nat }
    }
}

/// A waiter's count of failed requests after it has seen `events`, or none
/// once it has stopped (on a finished build, or on the last allowed failure).
pub open spec fn waiter_run(events: Seq<PollEvent>) -> Option<nat>
    decreases events.len(),
{
    if events.len() == 0 {
        Some(0)
    } else {
        match waiter_run(events.drop_last()) {
            None => None,
            Some(attempts) => match events.last() {
                PollEvent::Finished => None,
                PollEvent::Running => Some(attempts),
                PollEvent::Failed => if attempts + 1 >= MAX_RETRIES { None } else { Some(attempts + 1) },
            },
        }
    }
}

/// Polls one build until it finishes, giving up after `MAX_RETRIES` failed
/// requests in all.
pub struct Waiter {
    url: String,
    client: Buildkite,
    attempts: u64,
}

impl Waiter {
    /// A waiter for the build at the REST API URL `url`, that has not polled yet.
    pub fn new(client: Buildkite, url: &str) -> (r: Waiter)
        ensures
            r.attempts() == 0,
            r.url()@ == url@,
            r.client() == client,
    {
        Waiter { url: url.to_owned(), client, attempts: 0 }
    }

    pub closed spec fn attempts(&self) -> nat {
        self.attempts as nat
    }

    pub closed spec fn url(&self) -> String {
        self.url
    }

    pub closed spec fn client(&self) -> Buildkite {
        self.client
    }

    /// The failed requests so far.
    pub fn failed_attempts(&self) -> (r: u64)
        ensures
            r == self.attempts(),
    {
        self.attempts
    }

    /// The request for the next poll.
    pub fn poll_request(&self) -> (r: Result<ApiRequest, RequestError>)
        ensures
            request_for(self.client(), self.url()@, Seq::empty(), r),
    {
        self.client.build_by_url_request(self.url.as_str())
    }

    /// Takes the outcome of a poll and says what to report: a finished build ends
    /// the wait; an unfinished one is reported with its state, to be polled again
    /// after `POLL_INTERVAL_SECS`; a failed request is retried after
    /// `failure_delay` of the failures so far, until the `MAX_RETRIES`-th failure
    /// ends the wait with its error.
    pub fn step(&mut self, outcome: Result<Build, RequestError>) -> (r: WaitStatus)
        requires
            old(self).attempts() < MAX_RETRIES,
        ensures
            final(self).url() == old(self).url(),
            final(self).client() == old(self).client(),
            match outcome {
                Ok(build) => final(self).attempts() == old(self).attempts() && if state_is_finished(build.state@) {
                    r == WaitStatus::Finished(build)
                } else {
                    r matches WaitStatus::Continue(Some(s), delay) && s@ == build.state@ && delay == POLL_INTERVAL_SECS
                },
                Err(e) => final(self).attempts() == old(self).attempts() + 1 && if final(self).attempts() == MAX_RETRIES {
                    r == WaitStatus::Abort(e)
                } else {
                    r == WaitStatus::Continue(None, (final(self).attempts() * final(self).attempts()) as u64)
                },
            },
            kind_of(r) == step_kind(old(self).attempts(), event_of(outcome)),
            final(self).attempts() == step_attempts(old(self).attempts(), event_of(outcome)),
            (r is Continue) <==> waiter_run_step(old(self).attempts(), event_of(outcome)) is Some,
            r is Continue ==> Some(final(self).attempts()) == waiter_run_step(old(self).attempts(), event_of(outcome)),
    {
        match outcome {
            Ok(build) => {
                if build.is_finished() {
                    WaitStatus::Finished(build)
                } else {
                    WaitStatus::Continue(Some(build.state), POLL_INTERVAL_SECS)
                }
            },
            Err(e) => {
                self.attempts = self.attempts + 1;
                if self.attempts == MAX_RETRIES {
                    WaitStatus::Abort(e)
                } else {
                    let delay = failure_delay(self.attempts);
                    WaitStatus::Continue(None, delay)
                }
            },
        }
    }
}

/// One step of `waiter_run`.
pub open spec fn waiter_run_step(attempts: nat, event: PollEvent) -> Option<nat> {
    match event {
        PollEvent::Finished => None,
        PollEvent::Running => Some(attempts),
        PollEvent::Failed => if attempts + 1 >= MAX_RETRIES { None } else { Some(attempts + 1) },
    }
}

/// The kind of report a waiter gives on a poll, with `attempts` failures so far.
pub open spec fn step_kind(attempts: nat, event: PollEvent) -> StatusKind {
    match event {
        PollEvent::Finished => StatusKind::Finished,
        PollEvent::Running => StatusKind::Continue,
        PollEvent::Failed => if attempts + 1 >= MAX_RETRIES { StatusKind::Abort } else { StatusKind::Continue },
    }
}

/// The failures counted after a poll.
pub open spec fn step_attempts(attempts: nat, event: PollEvent) -> nat {
    if event == PollEvent::Failed { attempts + 1 } else { attempts }
}

/// The reports of a waiter that starts with `attempts` failures and is fed the
/// polls `events` in turn, until it reports something other than `Continue`
/// (after which it polls no more).
pub open spec fn run_kinds(attempts: nat, events: Seq<PollEvent>) -> Seq<StatusKind>
    decreases events.len(),
{
    if events.len() == 0 {
        Seq::empty()
    } else {
        let k = step_kind(attempts, events[0]);
        if k == StatusKind::Continue {
            seq![k] + run_kinds(step_attempts(attempts, events[0]), events.skip(1))
        } else {
            seq![k]
        }
    }
}

/// The failures a waiter has counted before its `i`-th poll.
pub open spec fn attempts_before(attempts: nat, events: Seq<PollEvent>, i: int) -> nat
    decreases i,
{
    if i <= 0 {
        attempts
    } else {
        step_attempts(attempts_before(attempts, events, i - 1), events[i - 1])
    }
}

proof fn lemma_attempts_before_shift(attempts: nat, events: Seq<PollEvent>, i: int)
    requires
        0 <= i < events.len(),
    ensures
        attempts_before(attempts, events, i + 1)
            == attempts_before(step_attempts(attempts, events[0]), events.skip(1), i),
    decreases i,
{
    let next = step_attempts(attempts, events[0]);
    let rest = events.skip(1);
    if i > 0 {
        lemma_attempts_before_shift(attempts, events, i - 1);
        assert(rest[i - 1] == events[i]);
        assert(attempts_before(attempts, events, i + 1) == step_attempts(attempts_before(attempts, events, i), events[i]));
        assert(attempts_before(next, rest, i) == step_attempts(attempts_before(next, rest, i - 1), rest[i - 1]));
    } else {
        assert(attempts_before(attempts, events, 0) == attempts);
        assert(attempts_before(attempts, events, 1) == step_attempts(attempts, events[0]));
        assert(attempts_before(next, rest, 0) == next);
    }
}

/// A whole run of a waiter: every report but the last is `Continue`; the run
/// stops early only on a `Finished` or `Abort` report; `Finished` comes exactly
/// on a poll that found the build finished, `Abort` only on a failed request,
/// the `MAX_RETRIES`-th one; and before every poll fewer than `MAX_RETRIES`
/// requests have failed, so `step` may be called for each of them.
pub proof fn lemma_waiter_run_reports(attempts: nat, events: Seq<PollEvent>)
    requires
        attempts < MAX_RETRIES,
    ensures
        ({
            let t = run_kinds(attempts, events);
            &&& t.len() <= events.len()
            &&& forall|i: int| 0 <= i < t.len() - 1 ==> #[trigger] t[i] == StatusKind::Continue
            &&& t.len() < events.len() ==> t.len() > 0 && t[t.len() - 1] != StatusKind::Continue
            &&& forall|i: int| 0 <= i < t.len() ==> (#[trigger] t[i] == StatusKind::Finished
                <==> events[i] == PollEvent::Finished)
            &&& forall|i: int| 0 <= i < t.len() ==> (#[trigger] t[i] == StatusKind::Abort ==> events[i]
                == PollEvent::Failed && attempts_before(attempts, events, i) + 1 == MAX_RETRIES)
            &&& forall|i: int| 0 <= i < t.len() ==> #[trigger] attempts_before(attempts, events, i) < MAX_RETRIES
            &&& forall|i: int| 0 <= i < t.len() ==> #[trigger] t[i] == step_kind(attempts_before(attempts, events, i), events[i])
        }),
    decreases events.len(),
{
    if events.len() > 0 {
        let k = step_kind(attempts, events[0]);
        let t = run_kinds(attempts, events);
        if k == StatusKind::Continue {
            let next = step_attempts(attempts, events[0]);
            let rest = events.skip(1);
            lemma_waiter_run_reports(next, rest);
            let tr = run_kinds(next, rest);
            assert(t == seq![k] + tr);
            assert forall|i: int| 0 < i < t.len() implies attempts_before(attempts, events, i)
                == attempts_before(next, rest, i - 1) by {
                lemma_attempts_before_shift(attempts, events, i - 1);
            };
            assert forall|i: int| 0 < i < t.len() implies #[trigger] t[i] == tr[i - 1] && events[i] == rest[i - 1] by {};
        } else {
            assert(t == seq![k]);
        }
    }
}

/// The reports of a run that starts from a new waiter.
pub proof fn lemma_new_waiter_run_reports(events: Seq<PollEvent>)
    ensures
        ({
            let t = run_kinds(0, events);
            &&& forall|i: int| 0 <= i < t.len() - 1 ==> #[trigger] t[i] == StatusKind::Continue
            &&& t.len() < events.len() ==> t.len() > 0 && t[t.len() - 1] != StatusKind::Continue
            &&& forall|i: int| 0 <= i < t.len() ==> (#[trigger] t[i] == StatusKind::Finished
                <==> events[i] == PollEvent::Finished)
            &&& forall|i: int| 0 <= i < t.len() ==> (#[trigger] t[i] == StatusKind::Abort ==> events[i]
                == PollEvent::Failed && attempts_before(0, events, i) + 1 == MAX_RETRIES)
        }),
{
    lemma_waiter_run_reports(0, events);
}

/// A waiter keeps polling exactly as long as no poll has found the build
/// finished and fewer than `MAX_RETRIES` requests have failed; while it polls,
/// its count of failures is the number of failed polls.
pub proof fn lemma_waiter_gives_up_on_third_failure(events: Seq<PollEvent>)
    ensures
        (waiter_run(events) is Some) <==> (!events.contains(PollEvent::Finished) && failures(events) < MAX_RETRIES),
        waiter_run(events) is Some ==> waiter_run(events) == Some(failures(events)),
    decreases events.len(),
{
    if events.len() > 0 {
        let init = events.drop_last();
        lemma_waiter_gives_up_on_third_failure(init);
        lemma_failures_monotone(events);
        assert forall|e: PollEvent| events.contains(e) <==> (init.contains(e) || events.last() == e) by {
            if events.contains(e) {
                let i = choose|i: int| 0 <= i < events.len() && events[i] == e;
                if i < events.len() - 1 {
                    assert(init[i] == e);
                }
            }
            if init.contains(e) {
                let i = choose|i: int| 0 <= i < init.len() && init[i] == e;
                assert(events[i] == e);
            }
            if events.last() == e {
                assert(events[events.len() - 1] == e);
            }
        };
    }
}

proof fn lemma_failures_monotone(events: Seq<PollEvent>)
    requires
        events.len() > 0,
    ensures
        failures(events.drop_last()) <= failures(events),
{
}

/// The back-off grows with each failure: 1, 4, 9, ... seconds.
pub proof fn lemma_failure_delay_grows(a: u64, b: u64)
    requires
        a < b <= u32::MAX,
    ensures
        a * a < b * b,
{
    assert(a * a < b * b) by (nonlinear_arith)
        requires
            a < b,
    ;
}

/// What to do after a request made with retries.
#[derive(PartialEq, Eq, Structural, Clone, Copy, Debug)]
pub enum RetryAction {
    /// Hand back the outcome of the last request.
    Return,
    /// Sleep this many seconds, then send the request again.
    RetryAfter(u64),
}

/// Retries a failing request up to a fixed number of times, backing off by the
/// square of the retry's number in seconds.
pub struct Retry {
    retries: u64,
    max_retries: u64,
}

impl Retry {
    /// A retry budget of `max_retries` after the first request.
    pub fn new(max_retries: u64) -> (r: Retry)
        requires
            max_retries <= u32::MAX,
        ensures
            r.retries() == 0,
            r.max_retries() == max_retries,
    {
        Retry { retries: 0, max_retries }
    }

    pub closed spec fn retries(&self) -> nat {
        self.retries as nat
    }

    pub closed spec fn max_retries(&self) -> nat {
        self.max_retries as nat
    }

    #[verifier::type_invariant]
    spec fn within_budget(&self) -> bool {
        self.retries <= self.max_retries && self.max_retries <= u32::MAX
    }

    /// Takes whether the last request succeeded: a success is handed back; a
    /// failure is retried after the square of the retry's number in seconds,
    /// while retries are left; else the failure is handed back.
    pub fn after_request(&mut self, succeeded: bool) -> (r: RetryAction)
        ensures
            final(self).max_retries() == old(self).max_retries(),
            (final(self).retries(), r) == retry_step(old(self).retries(), old(self).max_retries(), succeeded),
            final(self).retries() <= final(self).max_retries(),
    {
        proof {
            use_type_invariant(&*self);
        }
        if succeeded {
            RetryAction::Return
        } else if self.retries < self.max_retries {
            let next = self.retries + 1;
            let delay = failure_delay(next);
            self.retries = next;
            RetryAction::RetryAfter(delay)
        } else {
            RetryAction::Return
        }
    }
}

/// One decision of a retry budget: the retries used afterwards, and the action.
pub open spec fn retry_step(retries: nat, max_retries: nat, succeeded: bool) -> (nat, RetryAction) {
    if succeeded {
        (retries, RetryAction::Return)
    } else if retries < max_retries {
        (retries + 1, RetryAction::RetryAfter(((retries + 1) * (retries + 1)) as u64))
    } else {
        (retries, RetryAction::Return)
    }
}

/// The actions a retry budget takes on the outcomes of successive requests,
/// up to and including the first `Return`.
pub open spec fn retry_trace(retries: nat, max_retries: nat, outcomes: Seq<bool>) -> Seq<RetryAction>
    decreases outcomes.len(),
{
    if outcomes.len() == 0 {
        Seq::empty()
    } else {
        let (next, action) = retry_step(retries, max_retries, outcomes[0]);
        if action == RetryAction::Return {
            seq![action]
        } else {
            seq![action] + retry_trace(next, max_retries, outcomes.skip(1))
        }
    }
}

/// A success is handed back at once, whatever the budget, and uses no retry:
/// a run whose next request succeeds ends there with `Return`; a failure takes
/// a retry exactly while retries are left; and no run retries more often than
/// the retries left.
pub proof fn lemma_success_is_handed_back(retries: nat, max_retries: nat, rest: Seq<bool>)
    ensures
        retry_step(retries, max_retries, true) == (retries, RetryAction::Return),
        retry_trace(retries, max_retries, seq![true] + rest) == seq![RetryAction::Return],
        retry_step(retries, max_retries, false).1 is RetryAfter <==> retries < max_retries,
        retry_step(retries, max_retries, false).1 is RetryAfter ==> retry_step(retries, max_retries, false).0
            == retries + 1,
        retry_step(retries, max_retries, false).1 is Return ==> retry_step(retries, max_retries, false).0
            == retries,
{
    assert((seq![true] + rest)[0] == true);
}

/// When every request fails, a budget that has used `retries` of
/// `max_retries` retries the `k`-th next failure after `(retries + k + 1)²`
/// seconds while retries are left, then hands the failure back.
pub proof fn lemma_retry_trace_on_failures(retries: nat, max_retries: nat, n: nat)
    requires
        retries <= max_retries,
    ensures
        ({
            let t = retry_trace(retries, max_retries, Seq::new(n, |i: int| false));
            &&& t.len() == if n <= max_retries - retries { n } else { (max_retries - retries + 1) as nat }
            &&& forall|k: int| 0 <= k < t.len() ==> #[trigger] t[k] == if retries + k < max_retries {
                RetryAction::RetryAfter(((retries + k + 1) * (retries + k + 1)) as u64)
            } else {
                RetryAction::Return
            }
        }),
    decreases n,
{
    let outcomes = Seq::new(n, |i: int| false);
    if n > 0 {
        if retries < max_retries {
            lemma_retry_trace_on_failures(retries + 1, max_retries, (n - 1) as nat);
            assert(outcomes.skip(1) =~= Seq::new((n - 1) as nat, |i: int| false));
            let rest = retry_trace(retries + 1, max_retries, Seq::new((n - 1) as nat, |i: int| false));
            let t = retry_trace(retries, max_retries, outcomes);
            assert(t == seq![RetryAction::RetryAfter(((retries + 1) * (retries + 1)) as u64)] + rest);
            assert forall|k: int| 0 <= k < t.len() implies #[trigger] t[k] == if retries + k < max_retries {
                RetryAction::RetryAfter(((retries + k + 1) * (retries + k + 1)) as u64)
            } else {
                RetryAction::Return
            } by {
                if k > 0 {
                    assert(t[k] == rest[k - 1]);
                }
            };
        }
    }
}

/// A budget of three retries, the one that progress polling uses, retries a
/// failing request three times, after 1, 4 and 9 seconds, then gives up.
pub proof fn lemma_three_retries()
    ensures
        retry_trace(0, 3, Seq::new(4, |i: int| false)) == seq![
            RetryAction::RetryAfter(1),
            RetryAction::RetryAfter(4),
            RetryAction::RetryAfter(9),
            RetryAction::Return,
        ],
{
    lemma_retry_trace_on_failures(0, 3, 4);
    let t = retry_trace(0, 3, Seq::new(4, |i: int| false));
    assert(t[0] == RetryAction::RetryAfter(1));
    assert(t[1] == RetryAction::RetryAfter(4));
    assert(t[2] == RetryAction::RetryAfter(9));
    assert(t[3] == RetryAction::Return);
    assert(t =~= seq![
        RetryAction::RetryAfter(1),
        RetryAction::RetryAfter(4),
        RetryAction::RetryAfter(9),
        RetryAction::Return,
    ]);
}

/// What has been seen of a polled build: its last state and how many times it
/// has been fetched.
pub struct PollProgress {
    last_state: String,
    check_count: u64,
}

impl PollProgress {
    /// The progress after the first fetch of `build`.
    pub fn new(build: &Build) -> (r: PollProgress)
        ensures
            r.last_state()@ == build.state@,
            r.check_count() == 1,
    {
        PollProgress { last_state: build.state.clone(), check_count: 1 }
    }

    pub closed spec fn last_state(&self) -> String {
        self.last_state
    }

    pub closed spec fn check_count(&self) -> nat {
        self.check_count as nat
    }

    /// The state seen at the last fetch.
    pub fn state(&self) -> (r: &str)
        ensures
            r@ == self.last_state()@,
    {
        self.last_state.as_str()
    }

    /// How many times the build has been fetched.
    pub fn checks(&self) -> (r: u64)
        ensures
            r == self.check_count(),
    {
        self.check_count
    }

    /// Records a new fetch of the build: counts it, and when the state differs
    /// from the last one seen, remembers the new state and returns the old and
    /// the new one.
    pub fn record(&mut self, build: &Build) -> (r: Option<(String, String)>)
        requires
            old(self).check_count() < u64::MAX,
        ensures
            final(self).check_count() == old(self).check_count() + 1,
            final(self).last_state()@ == build.state@,
            match r {
                Some((from, to)) => old(self).last_state()@ != build.state@ && from@ == old(self).last_state()@
                    && to@ == build.state@,
                None => old(self).last_state()@ == build.state@,
            },
    {
        self.check_count = self.check_count + 1;
        if self.last_state == build.state {
            None
        } else {
            let from = self.last_state.clone();
            self.last_state = build.state.clone();
            Some((from, build.state.clone()))
        }
    }
}

/// The line that reports a change of state: `[<time>] Build changed state
/// from <old> to <new>`, both states title-cased, then lowercased.
pub open spec fn state_change_line(time: Seq<char>, from: Seq<char>, to: Seq<char>) -> Seq<char> {
    "["@ + time + "] Build changed state from "@ + ascii_lowercase(title_cased(from)) + " to "@
        + ascii_lowercase(title_cased(to))
}

/// Writes the line that reports a change of state at `time`.
pub fn state_change_message(time: &str, from: &str, to: &str) -> (r: String)
    ensures
        r@ == state_change_line(time@, from@, to@),
{
    let mut s = "[".to_owned();
    s.append(time);
    s.append("] Build changed state from ");
    let f = ascii_lowercase_title(from);
    s.append(f.as_str());
    s.append(" to ");
    let t = ascii_lowercase_title(to);
    s.append(t.as_str());
    s
}

} // verus!
