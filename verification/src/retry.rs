//! The readiness retry: a request is polled until its result is ready or a
//! time budget runs out. The caller performs the requests and the sleeps;
//! this module decides after each outcome what comes next.

use vstd::prelude::*;
use crate::error::{
    transient, LastObserved, LastObservedView, RequestError, RequestErrorView, RetryError,
    RetryErrorView,
};
use crate::json::{Json, JsonView};

verus! {

/// Whether a result can be trusted: it is not null, and if it is a sequence
/// it is not empty.
pub open spec fn result_ready(result: JsonView) -> bool {
    match result {
        JsonView::Null => false,
        JsonView::Array(items) => items.len() > 0,
        _ => true,
    }
}

/// Whether `result` is ready: not null, and not an empty array.
pub fn is_result_ready(result: &Json) -> (ready: bool)
    ensures
        ready == result_ready(result@),
{
    match result {
        Json::Null => false,
        Json::Array(items) => items.len() > 0,
        _ => true,
    }
}

/// The budget of `timeout_secs` seconds is used up once more than that time
/// has passed: a poll that ends exactly when the budget does is within it.
pub open spec fn budget_exhausted(elapsed_millis: u64, timeout_secs: u64) -> bool {
    elapsed_millis > timeout_secs * 1000
}

/// The whole seconds that have been waited once `elapsed_millis`
/// milliseconds have passed.
pub open spec fn waited(elapsed_millis: u64) -> u64 {
    (elapsed_millis / 1000) as u64
}

/// The budget of a retry ran out after `waited_secs` seconds of waiting.
#[derive(Debug, PartialEq, Eq, Clone, Copy)]
pub struct BudgetExhausted {
    pub waited_secs: u64,
}

/// Decides, after a poll that was not ready, whether the retry goes on.
/// `Err` exactly when more time has passed than the budget allows, with the
/// seconds that were waited; otherwise `Ok(false)`, and `logged_waiting` is
/// set: the wait has been announced.
pub fn check_retry_timeout(elapsed_millis: u64, timeout_secs: u64, logged_waiting: &mut bool) -> (r:
    Result<bool, BudgetExhausted>)
    ensures
        match r {
            Ok(stop) => !stop && !budget_exhausted(elapsed_millis, timeout_secs)
                && *final(logged_waiting),
            Err(e) => budget_exhausted(elapsed_millis, timeout_secs) && e.waited_secs == waited(
                elapsed_millis,
            ) && *final(logged_waiting) == *old(logged_waiting),
        },
{
    let whole_secs = elapsed_millis / 1000;
    let over = whole_secs > timeout_secs || (whole_secs == timeout_secs && elapsed_millis % 1000
        > 0);
    if over {
        return Err(BudgetExhausted { waited_secs: whole_secs });
    }
    *logged_waiting = true;
    Ok(false)
}

/// How a retry polls: the pause between two polls and the budget for all of
/// them.
#[derive(Debug, PartialEq, Eq, Clone, Copy)]
pub struct RetryPolicy {
    pub interval_millis: u64,
    pub budget_secs: u64,
}

/// What the caller does after a poll.
#[derive(Debug, PartialEq, Eq)]
pub enum RetryStep {
    /// Hand this result to the caller; the retry is over.
    Return(Json),
    /// Sleep this long, then poll again.
    Sleep { millis: u64 },
    /// Report this failure; the retry is over.
    Fail(RetryError),
}

/// The mathematical value of a [`RetryStep`].
pub enum RetryStepView {
    Return(JsonView),
    Sleep { millis: u64 },
    Fail(RetryErrorView),
}

impl View for RetryStep {
    type V = RetryStepView;

    open spec fn view(&self) -> RetryStepView {
        match self {
            RetryStep::Return(v) => RetryStepView::Return(v@),
            RetryStep::Sleep { millis } => RetryStepView::Sleep { millis: *millis },
            RetryStep::Fail(e) => RetryStepView::Fail(e@),
        }
    }
}

/// The outcome of one poll, as the policy sees it.
pub type PollView = Result<JsonView, RequestErrorView>;

/// The view of the outcome of one poll.
pub open spec fn poll_view(outcome: Result<Json, RequestError>) -> PollView {
    match outcome {
        Ok(v) => Ok(v@),
        Err(e) => Err(e@),
    }
}

/// Whether a poll produced a ready result.
pub open spec fn poll_ready(outcome: PollView) -> bool {
    match outcome {
        Ok(v) => result_ready(v),
        Err(_) => false,
    }
}

/// Whether a poll failed in a way that no retry mends.
pub open spec fn poll_broken(outcome: PollView) -> bool {
    match outcome {
        Ok(_) => false,
        Err(e) => !transient(e),
    }
}

/// Whether a poll calls for another one: its result was not ready, or it
/// failed in a way that may pass.
pub open spec fn poll_waits(outcome: PollView) -> bool {
    !poll_ready(outcome) && !poll_broken(outcome)
}

/// What a poll that was not ready leaves behind.
pub open spec fn observed(outcome: PollView) -> LastObservedView {
    match outcome {
        Ok(_) => LastObservedView::Empty,
        Err(e) => LastObservedView::Failed(e),
    }
}

/// A poll as the retry judges it.
#[derive(Debug, PartialEq, Eq)]
pub enum Poll {
    /// Ready, with its result.
    Ready(Json),
    /// Not ready, with what it saw: another poll may be.
    NotReady(LastObserved),
    /// Failed in a way that no retry mends.
    Broken(RequestError),
}

/// The mathematical value of a [`Poll`].
pub enum JudgedView {
    Ready(JsonView),
    NotReady(LastObservedView),
    Broken(RequestErrorView),
}

impl View for Poll {
    type V = JudgedView;

    open spec fn view(&self) -> JudgedView {
        match self {
            Poll::Ready(v) => JudgedView::Ready(v@),
            Poll::NotReady(last) => JudgedView::NotReady(last@),
            Poll::Broken(e) => JudgedView::Broken(e@),
        }
    }
}

/// A failed request as the retry judges it: broken where no retry mends
/// it, else not ready.
pub open spec fn judged_failure(error: RequestErrorView) -> JudgedView {
    if transient(error) {
        JudgedView::NotReady(LastObservedView::Failed(error))
    } else {
        JudgedView::Broken(error)
    }
}

/// An outcome judged by the readiness of its result.
pub open spec fn judged(outcome: PollView) -> JudgedView {
    match outcome {
        Ok(result) => if result_ready(result) {
            JudgedView::Ready(result)
        } else {
            JudgedView::NotReady(LastObservedView::Empty)
        },
        Err(e) => judged_failure(e),
    }
}

/// An outcome judged by success alone: every result counts as ready.
pub open spec fn settled(outcome: PollView) -> JudgedView {
    match outcome {
        Ok(result) => JudgedView::Ready(result),
        Err(e) => judged_failure(e),
    }
}

/// The step after a judged poll that ended `elapsed_millis` after the first
/// one began. A ready result is returned at once. A failure that no retry
/// mends is reported at once. Otherwise the retry sleeps one interval,
/// unless the budget is used up, in which case it fails with the time that
/// was waited and what the poll saw.
pub open spec fn step_for(policy: RetryPolicy, poll: JudgedView, elapsed_millis: u64) -> RetryStepView {
    match poll {
        JudgedView::Ready(value) => RetryStepView::Return(value),
        JudgedView::Broken(error) => RetryStepView::Fail(RetryErrorView::Aborted(error)),
        JudgedView::NotReady(last) => if budget_exhausted(elapsed_millis, policy.budget_secs) {
            RetryStepView::Fail(
                RetryErrorView::IndexingTimeout { waited_secs: waited(elapsed_millis), last },
            )
        } else {
            RetryStepView::Sleep { millis: policy.interval_millis }
        },
    }
}

/// The step after a poll with the outcome `outcome`, judged by the readiness
/// of its result.
pub open spec fn step_after(policy: RetryPolicy, outcome: PollView, elapsed_millis: u64) -> RetryStepView {
    step_for(policy, judged(outcome), elapsed_millis)
}

/// Judges a failed request.
pub fn judge_failure(error: RequestError) -> (poll: Poll)
    ensures
        poll@ == judged_failure(error@),
{
    if error.is_transient() {
        Poll::NotReady(LastObserved::Failed(error))
    } else {
        Poll::Broken(error)
    }
}

/// Judges an outcome by the readiness of its result.
pub fn judge(outcome: Result<Json, RequestError>) -> (poll: Poll)
    ensures
        poll@ == judged(poll_view(outcome)),
{
    match outcome {
        Ok(value) => if is_result_ready(&value) {
            Poll::Ready(value)
        } else {
            Poll::NotReady(LastObserved::Empty)
        },
        Err(e) => judge_failure(e),
    }
}

/// Judges an outcome by success alone.
pub fn settle(outcome: Result<Json, RequestError>) -> (poll: Poll)
    ensures
        poll@ == settled(poll_view(outcome)),
{
    match outcome {
        Ok(value) => Poll::Ready(value),
        Err(e) => judge_failure(e),
    }
}

/// Where a retry stands.
#[derive(Debug, PartialEq, Eq, Clone, Copy)]
pub enum RetryState {
    /// Polling: no ready result yet, budget not used up.
    Pending,
    /// Ended with a ready result.
    Ready,
    /// Ended because the budget ran out.
    TimedOut,
    /// Ended because a request failed in a way that no retry mends.
    Aborted,
    /// Ended because it was cancelled.
    Cancelled,
}

/// The state after a step taken from `Pending`.
pub open spec fn state_after(step: RetryStepView) -> RetryState {
    match step {
        RetryStepView::Return(_) => RetryState::Ready,
        RetryStepView::Sleep { .. } => RetryState::Pending,
        RetryStepView::Fail(RetryErrorView::Aborted(_)) => RetryState::Aborted,
        RetryStepView::Fail(_) => RetryState::TimedOut,
    }
}

/// The failure that a poll reported to a retry that had ended gets.
pub open spec fn ended_error(state: RetryState) -> RetryErrorView {
    if state == RetryState::Cancelled {
        RetryErrorView::Cancelled
    } else {
        RetryErrorView::Finished
    }
}

/// One readiness retry: `Pending` until a poll is ready, the budget runs out
/// or the retry is cancelled.
#[derive(Debug)]
pub struct ReadinessRetry {
    policy: RetryPolicy,
    state: RetryState,
    logged_waiting: bool,
}

impl ReadinessRetry {
    /// The policy of this retry.
    pub closed spec fn policy(&self) -> RetryPolicy {
        self.policy
    }

    /// The state of this retry.
    pub closed spec fn state(&self) -> RetryState {
        self.state
    }

    /// Whether a wait has been announced.
    pub closed spec fn waiting(&self) -> bool {
        self.logged_waiting
    }

    /// A retry that has not polled yet.
    pub fn new(policy: RetryPolicy) -> (retry: Self)
        ensures
            retry.policy() == policy,
            retry.state() == RetryState::Pending,
            !retry.waiting(),
    {
        ReadinessRetry { policy, state: RetryState::Pending, logged_waiting: false }
    }

    /// Where the retry stands.
    pub fn current_state(&self) -> (state: RetryState)
        ensures
            state == self.state(),
    {
        self.state
    }

    /// Whether the retry has had to wait.
    pub fn has_waited(&self) -> (waited: bool)
        ensures
            waited == self.waiting(),
    {
        self.logged_waiting
    }

    /// Takes a judged poll that ended `elapsed_millis` after the first poll
    /// began and says what to do next. While pending, the step is
    /// [`step_for`]; a retry that has ended answers every poll with a failure
    /// and stays as it is.
    pub fn on_poll(&mut self, poll: Poll, elapsed_millis: u64) -> (step: RetryStep)
        ensures
            final(self).policy() == old(self).policy(),
            old(self).state() == RetryState::Pending ==> step@ == step_for(
                old(self).policy(),
                poll@,
                elapsed_millis,
            ) && final(self).state() == state_after(step@)
                && final(self).waiting() == (old(self).waiting() || step is Sleep),
            old(self).state() != RetryState::Pending ==> step@ == RetryStepView::Fail(
                ended_error(old(self).state()),
            ) && final(self).state() == old(self).state()
                && final(self).waiting() == old(self).waiting(),
    {
        match self.state {
            RetryState::Pending => {},
            RetryState::Cancelled => {
                return RetryStep::Fail(RetryError::Cancelled);
            },
            _ => {
                return RetryStep::Fail(RetryError::Finished);
            },
        }
        let last = match poll {
            Poll::Ready(value) => {
                self.state = RetryState::Ready;
                return RetryStep::Return(value);
            },
            Poll::Broken(error) => {
                self.state = RetryState::Aborted;
                return RetryStep::Fail(RetryError::Aborted(error));
            },
            Poll::NotReady(last) => last,
        };
        let mut logged = self.logged_waiting;
        match check_retry_timeout(elapsed_millis, self.policy.budget_secs, &mut logged) {
            Ok(_) => {
                self.logged_waiting = logged;
                RetryStep::Sleep { millis: self.policy.interval_millis }
            },
            Err(e) => {
                self.state = RetryState::TimedOut;
                RetryStep::Fail(RetryError::IndexingTimeout { waited_secs: e.waited_secs, last })
            },
        }
    }

    /// Takes the outcome of a poll that ended `elapsed_millis` after the
    /// first poll began, judges it by the readiness of its result, and says
    /// what to do next. While pending, the step is [`step_after`]; a retry
    /// that has ended answers every poll with a failure and stays as it is.
    pub fn on_outcome(&mut self, outcome: Result<Json, RequestError>, elapsed_millis: u64) -> (step:
        RetryStep)
        ensures
            final(self).policy() == old(self).policy(),
            old(self).state() == RetryState::Pending ==> step@ == step_after(
                old(self).policy(),
                poll_view(outcome),
                elapsed_millis,
            ) && final(self).state() == state_after(step@)
                && final(self).waiting() == (old(self).waiting() || step is Sleep),
            old(self).state() != RetryState::Pending ==> step@ == RetryStepView::Fail(
                ended_error(old(self).state()),
            ) && final(self).state() == old(self).state()
                && final(self).waiting() == old(self).waiting(),
    {
        self.on_poll(judge(outcome), elapsed_millis)
    }

    /// Cancels a pending retry, as the teardown of its session does. A retry
    /// that has ended stays as it is.
    pub fn cancel(&mut self)
        ensures
            final(self).policy() == old(self).policy(),
            final(self).waiting() == old(self).waiting(),
            final(self).state() == if old(self).state() == RetryState::Pending {
                RetryState::Cancelled
            } else {
                old(self).state()
            },
    {
        match self.state {
            RetryState::Pending => {
                self.state = RetryState::Cancelled;
            },
            _ => {},
        }
    }
}

/// One poll of a recorded run: when it ended, and how.
pub struct PollRecord {
    pub elapsed_millis: u64,
    pub outcome: PollView,
}

/// How a run of polls ends.
pub enum RunEnd {
    /// Every recorded poll was followed by a sleep.
    Pending,
    /// Poll number `poll` was ready; its result was returned.
    Returned { poll: int, value: JsonView },
    /// The retry failed at poll number `poll`.
    Failed { poll: int, error: RetryErrorView },
}

/// The end of the run that takes the polls `polls[from..]` in turn.
pub open spec fn run_from(policy: RetryPolicy, polls: Seq<PollRecord>, from: int) -> RunEnd
    decreases polls.len() - from,
{
    if from < 0 || from >= polls.len() {
        RunEnd::Pending
    } else {
        match step_after(policy, polls[from].outcome, polls[from].elapsed_millis) {
            RetryStepView::Return(value) => RunEnd::Returned { poll: from, value },
            RetryStepView::Fail(error) => RunEnd::Failed { poll: from, error },
            RetryStepView::Sleep { .. } => run_from(policy, polls, from + 1),
        }
    }
}

/// The end of the run that takes all of `polls` in turn.
pub open spec fn run(policy: RetryPolicy, polls: Seq<PollRecord>) -> RunEnd {
    run_from(policy, polls, 0)
}

/// A run whose polls before `upto` were all followed by a sleep goes on from
/// `upto`.
proof fn lemma_run_skips_sleeps(policy: RetryPolicy, polls: Seq<PollRecord>, from: int, upto: int)
    requires
        0 <= from <= upto <= polls.len(),
        forall|i: int|
            from <= i < upto ==> step_after(
                policy,
                #[trigger] polls[i].outcome,
                polls[i].elapsed_millis,
            ) is Sleep,
    ensures
        run_from(policy, polls, from) == run_from(policy, polls, upto),
    decreases upto - from,
{
    if from < upto {
        assert(step_after(policy, polls[from].outcome, polls[from].elapsed_millis) is Sleep);
        lemma_run_skips_sleeps(policy, polls, from + 1, upto);
    }
}

/// A retry returns the first ready result, at the poll that produced it,
/// however much of the budget is left and whatever polls would follow.
pub proof fn lemma_returns_first_ready(policy: RetryPolicy, polls: Seq<PollRecord>, first: int)
    requires
        0 <= first < polls.len(),
        poll_ready(polls[first].outcome),
        forall|i: int|
            0 <= i < first ==> poll_waits(#[trigger] polls[i].outcome) && !budget_exhausted(
                polls[i].elapsed_millis,
                policy.budget_secs,
            ),
    ensures
        run(policy, polls) == (RunEnd::Returned {
            poll: first,
            value: polls[first].outcome->Ok_0,
        }),
{
    lemma_run_skips_sleeps(policy, polls, 0, first);
}

/// A retry that never sees a ready result, and whose requests fail only in
/// ways that may pass, fails at the first poll that ends with the budget
/// used up: with the timeout that names the time that was waited and what
/// that poll saw, and not at any earlier poll.
pub proof fn lemma_times_out_at_budget(policy: RetryPolicy, polls: Seq<PollRecord>, at: int)
    requires
        0 <= at < polls.len(),
        forall|i: int| 0 <= i <= at ==> poll_waits(#[trigger] polls[i].outcome),
        forall|i: int|
            0 <= i < at ==> !budget_exhausted(
                (#[trigger] polls[i]).elapsed_millis,
                policy.budget_secs,
            ),
        budget_exhausted(polls[at].elapsed_millis, policy.budget_secs),
    ensures
        run(policy, polls) == (RunEnd::Failed {
            poll: at,
            error: RetryErrorView::IndexingTimeout {
                waited_secs: waited(polls[at].elapsed_millis),
                last: observed(polls[at].outcome),
            },
        }),
{
    assert forall|i: int| 0 <= i < at implies step_after(
        policy,
        #[trigger] polls[i].outcome,
        polls[i].elapsed_millis,
    ) is Sleep by {
        assert(poll_waits(polls[i].outcome));
        assert(!budget_exhausted(polls[i].elapsed_millis, policy.budget_secs));
    }
    lemma_run_skips_sleeps(policy, polls, 0, at);
    assert(poll_waits(polls[at].outcome));
}

/// A retry fails with a timeout only at a poll that called for another one
/// and ended with the budget used up; every poll before it called for
/// another one too, and ended within the budget.
pub proof fn lemma_times_out_only_after_budget(policy: RetryPolicy, polls: Seq<PollRecord>)
    requires
        run(policy, polls) is Failed,
        run(policy, polls)->Failed_error is IndexingTimeout,
    ensures
        ({
            let at = run(policy, polls)->Failed_poll;
            &&& 0 <= at < polls.len()
            &&& poll_waits(polls[at].outcome)
            &&& budget_exhausted(polls[at].elapsed_millis, policy.budget_secs)
            &&& forall|i: int|
                0 <= i < at ==> poll_waits(#[trigger] polls[i].outcome) && !budget_exhausted(
                    polls[i].elapsed_millis,
                    policy.budget_secs,
                )
        }),
{
    lemma_failed_from(policy, polls, 0);
}

proof fn lemma_failed_from(policy: RetryPolicy, polls: Seq<PollRecord>, from: int)
    requires
        0 <= from,
        run_from(policy, polls, from) is Failed,
    ensures
        ({
            let at = run_from(policy, polls, from)->Failed_poll;
            let error = run_from(policy, polls, from)->Failed_error;
            &&& from <= at < polls.len()
            &&& !poll_ready(polls[at].outcome)
            &&& error is IndexingTimeout ==> poll_waits(polls[at].outcome) && budget_exhausted(
                polls[at].elapsed_millis,
                policy.budget_secs,
            )
            &&& error is Aborted ==> poll_broken(polls[at].outcome) && error
                == RetryErrorView::Aborted(polls[at].outcome->Err_0)
            &&& error is IndexingTimeout || error is Aborted
            &&& forall|i: int|
                from <= i < at ==> poll_waits(#[trigger] polls[i].outcome) && !budget_exhausted(
                    polls[i].elapsed_millis,
                    policy.budget_secs,
                )
        }),
    decreases polls.len() - from,
{
    if from < polls.len() {
        if step_after(policy, polls[from].outcome, polls[from].elapsed_millis) is Sleep {
            lemma_failed_from(policy, polls, from + 1);
        }
    }
}

/// A failure that no retry mends ends the retry at once, whatever is left
/// of the budget: the retry fails at the first such poll, with the failure
/// of the request.
pub proof fn lemma_broken_poll_ends_retry(policy: RetryPolicy, polls: Seq<PollRecord>, at: int)
    requires
        0 <= at < polls.len(),
        poll_broken(polls[at].outcome),
        forall|i: int|
            0 <= i < at ==> poll_waits(#[trigger] polls[i].outcome) && !budget_exhausted(
                polls[i].elapsed_millis,
                policy.budget_secs,
            ),
    ensures
        run(policy, polls) == (RunEnd::Failed {
            poll: at,
            error: RetryErrorView::Aborted(polls[at].outcome->Err_0),
        }),
{
    lemma_run_skips_sleeps(policy, polls, 0, at);
}

/// A retry fails only with a timeout or with a failure that no retry
/// mends; in the second case at the poll that failed so.
pub proof fn lemma_failures_of_a_retry(policy: RetryPolicy, polls: Seq<PollRecord>)
    requires
        run(policy, polls) is Failed,
    ensures
        ({
            let at = run(policy, polls)->Failed_poll;
            let error = run(policy, polls)->Failed_error;
            &&& 0 <= at < polls.len()
            &&& error is IndexingTimeout || error is Aborted
            &&& error is Aborted ==> poll_broken(polls[at].outcome) && error
                == RetryErrorView::Aborted(polls[at].outcome->Err_0)
        }),
{
    lemma_failed_from(policy, polls, 0);
}

/// A retry does not poll forever: where each poll ends at least one interval
/// after the one before it, a run long enough for its last poll to fall
/// after the budget has returned or failed.
pub proof fn lemma_run_ends(policy: RetryPolicy, polls: Seq<PollRecord>)
    requires
        polls.len() > 0,
        forall|i: int|
            0 <= i < polls.len() ==> (#[trigger] polls[i]).elapsed_millis >= i
                * policy.interval_millis,
        (polls.len() - 1) * policy.interval_millis > policy.budget_secs * 1000,
    ensures
        !(run(policy, polls) is Pending),
{
    let last = polls.len() - 1;
    assert(polls[last].elapsed_millis >= last * policy.interval_millis);
    assert(budget_exhausted(polls[last].elapsed_millis, policy.budget_secs));
    lemma_pending_runs_only_sleep(policy, polls, 0);
    if run(policy, polls) is Pending {
        assert(step_after(policy, polls[last].outcome, polls[last].elapsed_millis) is Sleep);
    }
}

proof fn lemma_pending_runs_only_sleep(policy: RetryPolicy, polls: Seq<PollRecord>, from: int)
    requires
        0 <= from <= polls.len(),
    ensures
        run_from(policy, polls, from) is Pending ==> forall|i: int|
            from <= i < polls.len() ==> step_after(
                policy,
                #[trigger] polls[i].outcome,
                polls[i].elapsed_millis,
            ) is Sleep,
    decreases polls.len() - from,
{
    if from < polls.len() {
        lemma_pending_runs_only_sleep(policy, polls, from + 1);
    }
}

} // verus!
