//! The retry policy around one delivery, as a state machine.
//!
//! The caller owns the clock and the network. It makes an attempt, hands the
//! result to [`RetryState::on_result`], and does what the decision says:
//! stop with a result, or wait and attempt again. The wait starts at the
//! configured initial delay and grows by the configured factor after every
//! retry, capped at the configured maximum, without jitter. Waits are whole
//! milliseconds; a product that is none is rounded up, so that a wait grows
//! as long as the factor is above one.

use vstd::prelude::*;

use crate::config::RetrySettings;
use crate::error::TransportError;

verus! {

/// Where the policy stands while one delivery is in progress.
#[derive(Debug, Clone, Copy, PartialEq, Eq)]
pub struct RetryState {
    /// Number of the attempt that is in flight, counted from one.
    pub attempt: u32,
    /// The wait that is owed if that attempt fails and another one follows.
    pub delay_ms: u64,
}

/// What to do after an attempt.
#[derive(Debug, PartialEq, Eq)]
pub enum RetryDecision {
    /// The delivery is over, with this result.
    Finished(Result<(), TransportError>),
    /// Wait this long, then attempt again; `error` is what the last attempt
    /// failed with.
    RetryAfter { delay_ms: u64, error: TransportError },
}

/// The wait that follows a wait of `delay_ms`: grown by the factor, rounded
/// up to whole milliseconds, and capped.
pub open spec fn next_delay(settings: RetrySettings, delay_ms: u64) -> u64 {
    let grown = (delay_ms as int * settings.multiplier_permille as int + 999) / 1000;
    if grown >= settings.max_delay_ms {
        settings.max_delay_ms
    } else {
        grown as u64
    }
}

/// The wait after the failed attempt number `k + 1`.
pub open spec fn delay_at(settings: RetrySettings, k: nat) -> u64
    decreases k,
{
    if k == 0 {
        settings.initial_delay_ms
    } else {
        next_delay(settings, delay_at(settings, (k - 1) as nat))
    }
}

impl RetryState {
    /// The state in which the first attempt is made.
    pub open spec fn initial(settings: RetrySettings) -> RetryState {
        RetryState { attempt: 1, delay_ms: settings.initial_delay_ms }
    }

    /// Whether a failure with `error` ends the delivery: the attempts are
    /// used up, or the failure is terminal.
    pub open spec fn gives_up(self, settings: RetrySettings, error: TransportError) -> bool {
        self.attempt >= settings.max_attempts || !error.spec_is_retriable()
    }

    /// The decision after an attempt that ended with `result`.
    pub open spec fn decide(
        self,
        settings: RetrySettings,
        result: Result<(), TransportError>,
    ) -> RetryDecision {
        match result {
            Ok(_) => RetryDecision::Finished(Ok(())),
            Err(error) => if self.gives_up(settings, error) {
                RetryDecision::Finished(result)
            } else {
                RetryDecision::RetryAfter { delay_ms: self.delay_ms, error }
            },
        }
    }

    /// The state after an attempt that ended with `result`: unchanged when
    /// the delivery is over, else one attempt further with the next wait.
    pub open spec fn advance(
        self,
        settings: RetrySettings,
        result: Result<(), TransportError>,
    ) -> RetryState {
        match self.decide(settings, result) {
            RetryDecision::Finished(_) => self,
            RetryDecision::RetryAfter { .. } => RetryState {
                attempt: (self.attempt + 1) as u32,
                delay_ms: next_delay(settings, self.delay_ms),
            },
        }
    }

    /// Starts a delivery: the first attempt is in flight.
    pub fn new(settings: &RetrySettings) -> (state: RetryState)
        ensures
            state == RetryState::initial(*settings),
    {
        RetryState { attempt: 1, delay_ms: settings.initial_delay_ms }
    }

    /// Takes the result of the attempt in flight and decides. Success ends
    /// the delivery at once. A failure ends it when the attempts are used up
    /// or the failure is not retriable; otherwise the caller is told to wait
    /// and to attempt again.
    pub fn on_result(&mut self, settings: &RetrySettings, result: Result<(), TransportError>) -> (decision:
        RetryDecision)
        ensures
            decision == old(self).decide(*settings, result),
            *final(self) == old(self).advance(*settings, result),
    {
        match result {
            Ok(()) => RetryDecision::Finished(Ok(())),
            Err(error) => {
                if self.attempt >= settings.max_attempts || !error.is_retriable() {
                    RetryDecision::Finished(Err(error))
                } else {
                    let delay_ms = self.delay_ms;
                    self.attempt = self.attempt + 1;
                    self.delay_ms = grow(settings, delay_ms);
                    RetryDecision::RetryAfter { delay_ms, error }
                }
            },
        }
    }
}

/// Computes the wait that follows a wait of `delay_ms`.
pub fn grow(settings: &RetrySettings, delay_ms: u64) -> (next: u64)
    ensures
        next == next_delay(*settings, delay_ms),
{
    assert(delay_ms as int * settings.multiplier_permille as int <= 0xFFFF_FFFF_FFFF_FFFF
        * 0xFFFF_FFFF_FFFF_FFFF) by (nonlinear_arith)
        requires
            0 <= delay_ms as int <= 0xFFFF_FFFF_FFFF_FFFF,
            0 <= settings.multiplier_permille as int <= 0xFFFF_FFFF_FFFF_FFFF,
    ;
    let grown: u128 = ((delay_ms as u128) * (settings.multiplier_permille as u128) + 999) / 1000;
    if grown >= settings.max_delay_ms as u128 {
        settings.max_delay_ms
    } else {
        grown as u64
    }
}

/// One delivery seen from outside: how it ended, how often the operation was
/// invoked, and the waits between the invocations.
pub struct RetryRun {
    /// `None` while the delivery is not over.
    pub result: Option<Result<(), TransportError>>,
    pub invocations: nat,
    pub waits: Seq<u64>,
}

/// The delivery that unfolds from `state` when the operation's invocations
/// end, in order, as `outcomes` says.
pub open spec fn run_from(
    state: RetryState,
    settings: RetrySettings,
    outcomes: Seq<Result<(), TransportError>>,
) -> RetryRun
    decreases outcomes.len(),
{
    if outcomes.len() == 0 {
        RetryRun { result: None, invocations: 0, waits: Seq::empty() }
    } else {
        match state.decide(settings, outcomes[0]) {
            RetryDecision::Finished(result) => RetryRun {
                result: Some(result),
                invocations: 1,
                waits: Seq::empty(),
            },
            RetryDecision::RetryAfter { delay_ms, .. } => {
                let rest = run_from(
                    state.advance(settings, outcomes[0]),
                    settings,
                    outcomes.drop_first(),
                );
                RetryRun {
                    result: rest.result,
                    invocations: rest.invocations + 1,
                    waits: seq![delay_ms] + rest.waits,
                }
            },
        }
    }
}

/// A whole delivery under the policy, from its first attempt.
pub open spec fn run(
    settings: RetrySettings,
    outcomes: Seq<Result<(), TransportError>>,
) -> RetryRun {
    run_from(RetryState::initial(settings), settings, outcomes)
}

/// Whether an invocation ended in a failure that may be retried.
pub open spec fn failed_retriably(outcome: Result<(), TransportError>) -> bool {
    outcome matches Err(error) && error.spec_is_retriable()
}

/// Whether an invocation ended in a failure that may not be retried.
pub open spec fn failed_terminally(outcome: Result<(), TransportError>) -> bool {
    outcome matches Err(error) && !error.spec_is_retriable()
}

proof fn lemma_run_success(
    state: RetryState,
    settings: RetrySettings,
    outcomes: Seq<Result<(), TransportError>>,
    k: nat,
)
    requires
        k < outcomes.len(),
        forall|i: int| 0 <= i < k ==> failed_retriably(#[trigger] outcomes[i]),
        outcomes[k as int] is Ok,
        state.attempt + k <= settings.max_attempts,
    ensures
        run_from(state, settings, outcomes).result == Some(Ok::<(), TransportError>(())),
        run_from(state, settings, outcomes).invocations == k + 1,
        run_from(state, settings, outcomes).waits.len() == k,
    decreases k,
{
    if k > 0 {
        assert(failed_retriably(outcomes[0]));
        let rest = outcomes.drop_first();
        assert forall|i: int| 0 <= i < k - 1 implies failed_retriably(#[trigger] rest[i]) by {
            assert(rest[i] == outcomes[i + 1]);
        }
        lemma_run_success(state.advance(settings, outcomes[0]), settings, rest, (k - 1) as nat);
    }
}

proof fn lemma_run_exhausted(
    state: RetryState,
    settings: RetrySettings,
    outcomes: Seq<Result<(), TransportError>>,
)
    requires
        1 <= state.attempt <= settings.max_attempts,
        outcomes.len() > settings.max_attempts - state.attempt,
        forall|i: int|
            0 <= i <= settings.max_attempts - state.attempt ==> failed_retriably(
                #[trigger] outcomes[i],
            ),
    ensures
        run_from(state, settings, outcomes).result == Some(
            outcomes[settings.max_attempts - state.attempt],
        ),
        run_from(state, settings, outcomes).invocations == settings.max_attempts - state.attempt
            + 1,
    decreases settings.max_attempts - state.attempt,
{
    assert(failed_retriably(outcomes[0]));
    if state.attempt < settings.max_attempts {
        let rest = outcomes.drop_first();
        let next = state.advance(settings, outcomes[0]);
        assert forall|i: int| 0 <= i <= settings.max_attempts - next.attempt implies failed_retriably(
            #[trigger] rest[i],
        ) by {
            assert(rest[i] == outcomes[i + 1]);
        }
        lemma_run_exhausted(next, settings, rest);
        assert(rest[settings.max_attempts - next.attempt] == outcomes[settings.max_attempts
            - state.attempt]);
    }
}

/// An operation that fails retriably exactly `k` times and then succeeds,
/// under a policy that allows at least `k + 1` attempts, is invoked exactly
/// `k + 1` times, and the delivery succeeds after `k` waits.
pub proof fn lemma_success_after_failures(
    settings: RetrySettings,
    outcomes: Seq<Result<(), TransportError>>,
    k: nat,
)
    requires
        k < outcomes.len(),
        forall|i: int| 0 <= i < k ==> failed_retriably(#[trigger] outcomes[i]),
        outcomes[k as int] is Ok,
        settings.max_attempts >= k + 1,
    ensures
        run(settings, outcomes).result == Some(Ok::<(), TransportError>(())),
        run(settings, outcomes).invocations == k + 1,
        run(settings, outcomes).waits.len() == k,
{
    lemma_run_success(RetryState::initial(settings), settings, outcomes, k);
}

/// An operation whose first failure is not retriable is invoked exactly once,
/// and the delivery ends with that failure, without any wait.
pub proof fn lemma_terminal_failure_ends_delivery(
    settings: RetrySettings,
    outcomes: Seq<Result<(), TransportError>>,
)
    requires
        outcomes.len() > 0,
        failed_terminally(outcomes[0]),
    ensures
        run(settings, outcomes).result == Some(outcomes[0]),
        run(settings, outcomes).invocations == 1,
        run(settings, outcomes).waits.len() == 0,
{
}

/// An operation that keeps failing retriably, under a policy that allows
/// `max_attempts` attempts, is invoked exactly `max_attempts` times, and the
/// delivery ends with the failure of the last attempt.
pub proof fn lemma_retries_exhausted(
    settings: RetrySettings,
    outcomes: Seq<Result<(), TransportError>>,
)
    requires
        settings.max_attempts >= 1,
        outcomes.len() >= settings.max_attempts,
        forall|i: int| 0 <= i < settings.max_attempts ==> failed_retriably(#[trigger] outcomes[i]),
    ensures
        run(settings, outcomes).result == Some(outcomes[settings.max_attempts - 1]),
        run(settings, outcomes).invocations == settings.max_attempts,
{
    lemma_run_exhausted(RetryState::initial(settings), settings, outcomes);
}

/// The policy never makes more attempts than the configured bound, or than
/// one where the bound is zero; and a delivery that is over has waited once
/// between any two of its attempts.
pub proof fn lemma_attempts_bounded(
    settings: RetrySettings,
    outcomes: Seq<Result<(), TransportError>>,
)
    ensures
        run(settings, outcomes).invocations <= 1 || run(settings, outcomes).invocations
            <= settings.max_attempts,
        run(settings, outcomes).result is Some ==> run(settings, outcomes).invocations
            == run(settings, outcomes).waits.len() + 1,
{
    lemma_run_bounded(RetryState::initial(settings), settings, outcomes);
}

proof fn lemma_run_bounded(
    state: RetryState,
    settings: RetrySettings,
    outcomes: Seq<Result<(), TransportError>>,
)
    requires
        state.attempt >= 1,
    ensures
        run_from(state, settings, outcomes).invocations <= 1 || run_from(
            state,
            settings,
            outcomes,
        ).invocations + state.attempt <= settings.max_attempts + 1,
        run_from(state, settings, outcomes).result is Some ==> run_from(
            state,
            settings,
            outcomes,
        ).invocations == run_from(state, settings, outcomes).waits.len() + 1,
    decreases outcomes.len(),
{
    if outcomes.len() > 0 {
        match state.decide(settings, outcomes[0]) {
            RetryDecision::Finished(_) => {},
            RetryDecision::RetryAfter { .. } => {
                lemma_run_bounded(
                    state.advance(settings, outcomes[0]),
                    settings,
                    outcomes.drop_first(),
                );
            },
        }
    }
}

/// The waits of a delivery follow the backoff schedule: the wait after the
/// failed attempt number `k + 1` is `delay_at(settings, k)`.
pub proof fn lemma_waits_follow_schedule(
    settings: RetrySettings,
    outcomes: Seq<Result<(), TransportError>>,
    k: int,
)
    requires
        0 <= k < run(settings, outcomes).waits.len(),
    ensures
        run(settings, outcomes).waits[k] == delay_at(settings, k as nat),
{
    lemma_run_waits(RetryState::initial(settings), settings, outcomes, 0, k);
}

proof fn lemma_run_waits(
    state: RetryState,
    settings: RetrySettings,
    outcomes: Seq<Result<(), TransportError>>,
    done: nat,
    k: int,
)
    requires
        state.delay_ms == delay_at(settings, done),
        0 <= k < run_from(state, settings, outcomes).waits.len(),
    ensures
        run_from(state, settings, outcomes).waits[k] == delay_at(settings, done + k as nat),
    decreases outcomes.len(),
{
    if outcomes.len() > 0 {
        match state.decide(settings, outcomes[0]) {
            RetryDecision::Finished(_) => {},
            RetryDecision::RetryAfter { .. } => {
                if k > 0 {
                    lemma_run_waits(
                        state.advance(settings, outcomes[0]),
                        settings,
                        outcomes.drop_first(),
                        done + 1,
                        k - 1,
                    );
                }
            },
        }
    }
}

/// Growth is strict: with a factor above one, the wait after a wait that is
/// not zero is longer, unless it is the cap.
pub proof fn lemma_wait_grows(settings: RetrySettings, delay_ms: u64)
    requires
        settings.multiplier_permille > 1000,
        delay_ms > 0,
    ensures
        next_delay(settings, delay_ms) > delay_ms || next_delay(settings, delay_ms)
            == settings.max_delay_ms,
{
    assert(delay_ms as int * settings.multiplier_permille as int >= delay_ms as int * 1000 + 1)
        by (nonlinear_arith)
        requires
            settings.multiplier_permille >= 1001,
            delay_ms >= 1,
    ;
}

/// The schedule grows strictly until it reaches the cap: with a factor above
/// one and an initial delay that is not zero, each wait is longer than the
/// one before, or is the cap.
pub proof fn lemma_schedule_grows(settings: RetrySettings, k: nat)
    requires
        settings.multiplier_permille > 1000,
        settings.initial_delay_ms > 0,
    ensures
        delay_at(settings, k) > 0 || delay_at(settings, k) == settings.max_delay_ms,
        delay_at(settings, k + 1) > delay_at(settings, k) || delay_at(settings, k + 1)
            == settings.max_delay_ms,
    decreases k,
{
    if k > 0 {
        lemma_schedule_grows(settings, (k - 1) as nat);
    }
    if delay_at(settings, k) > 0 {
        lemma_wait_grows(settings, delay_at(settings, k));
    }
}

/// After the first wait no wait exceeds the cap; and where the factor is at
/// least one and the first wait is within the cap, every wait is within the
/// cap and no wait is shorter than the one before.
pub proof fn lemma_delays_capped(settings: RetrySettings, k: nat)
    ensures
        k >= 1 ==> delay_at(settings, k) <= settings.max_delay_ms,
        settings.initial_delay_ms <= settings.max_delay_ms ==> delay_at(settings, k)
            <= settings.max_delay_ms,
        settings.multiplier_permille >= 1000 && settings.initial_delay_ms <= settings.max_delay_ms
            ==> delay_at(settings, k) <= delay_at(settings, k + 1),
    decreases k,
{
    if k > 0 {
        lemma_delays_capped(settings, (k - 1) as nat);
    }
    let d = delay_at(settings, k);
    if settings.multiplier_permille >= 1000 {
        assert(d as int * settings.multiplier_permille as int >= d as int * 1000) by (nonlinear_arith)
            requires
                settings.multiplier_permille >= 1000,
                d >= 0,
        ;
    }
}

} // verus!
