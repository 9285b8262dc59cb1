use backoff::backoff::Backoff;
use vstd::prelude::*;

verus! {

/// The clock that `backoff::ExponentialBackoff` reads its elapsed time from.
#[verifier::external_type_specification]
#[verifier::external_body]
pub struct ExSystemClock(backoff::SystemClock);

/// The backoff policy's state: current interval, start time and budget.
#[verifier::external_type_specification]
#[verifier::external_body]
#[verifier::reject_recursive_types(C)]
pub struct ExExponentialBackoff<C>(backoff::exponential::ExponentialBackoff<C>);

/// Relies on `backoff::ExponentialBackoff`'s `Default` (500 ms first interval,
/// factor 1.5, jitter 0.5, 60 s interval cap), with `max_elapsed_time` set to
/// `max_elapsed_secs` seconds. Its clock starts at the call.
#[verifier::external_body]
fn backoff_with_budget(max_elapsed_secs: u64) -> backoff::ExponentialBackoff {
    backoff::ExponentialBackoff {
        max_elapsed_time: Some(std::time::Duration::from_secs(max_elapsed_secs)),
        ..Default::default()
    }
}

/// Relies on `Backoff::next_backoff` of `backoff::ExponentialBackoff`: the
/// randomized delay before the next attempt, or `None` once the elapsed time
/// plus that delay would pass the budget. It reads the clock and a random
/// number, so nothing is stated of the result.
#[verifier::external_body]
fn next_delay(b: &mut backoff::ExponentialBackoff) -> Option<std::time::Duration> {
    b.next_backoff()
}

/// What one attempt of a read against the store came back with.
#[derive(Debug)]
pub enum Attempt<T, E> {
    /// The store returned a row.
    Found(T),
    /// The store reported that no row matches.
    Absent,
    /// The store failed; every failure is taken as transient.
    Failed(E),
}

/// What the caller of a lookup does next.
#[derive(Debug)]
pub enum Step<T, E> {
    /// Stop and hand this result to the caller of the lookup.
    Done(Option<T>),
    /// Wait this long, then make another attempt.
    Wait(std::time::Duration),
    /// The budget is spent: signal this last error, then hand `None` to the
    /// caller of the lookup.
    GiveUp(E),
}

/// The step that follows `attempt`, where `delay` is what the backoff policy
/// answers when asked after a failure.
pub open spec fn next_step<T, E>(attempt: Attempt<T, E>, delay: Option<std::time::Duration>) -> Step<T, E> {
    match attempt {
        Attempt::Found(row) => Step::Done(Some(row)),
        Attempt::Absent => Step::Done(None),
        Attempt::Failed(e) => match delay {
            Some(d) => Step::Wait(d),
            None => Step::GiveUp(e),
        },
    }
}

/// The result that a terminal step hands to the caller of the lookup:
/// a row, or `None` both for "no such row" and for "gave up".
pub open spec fn result_of<T, E>(step: Step<T, E>) -> Option<T> {
    match step {
        Step::Done(r) => r,
        _ => None,
    }
}

/// Decides the step after `attempt`, given the delay that the backoff
/// policy offered (only read after a failure).
pub fn decide<T, E>(attempt: Attempt<T, E>, delay: Option<std::time::Duration>) -> (s: Step<T, E>)
    ensures
        s == next_step(attempt, delay),
{
    match attempt {
        Attempt::Found(row) => Step::Done(Some(row)),
        Attempt::Absent => Step::Done(None),
        Attempt::Failed(e) => match delay {
            Some(d) => Step::Wait(d),
            None => Step::GiveUp(e),
        },
    }
}

/// The state of one lookup under exponential backoff.
#[derive(Debug)]
pub struct RetrySession {
    backoff: backoff::ExponentialBackoff,
    attempts: u64,
    finished: bool,
}

impl RetrySession {
    /// Attempts observed so far.
    pub closed spec fn attempt_count(self) -> nat {
        self.attempts as nat
    }

    /// Whether a terminal step was handed out.
    pub closed spec fn is_finished(self) -> bool {
        self.finished
    }

    /// A session whose backoff stops offering delays once `max_elapsed_secs`
    /// seconds have passed.
    pub fn new(max_elapsed_secs: u64) -> (r: Self)
        ensures
            r.attempt_count() == 0,
            !r.is_finished(),
    {
        RetrySession { backoff: backoff_with_budget(max_elapsed_secs), attempts: 0, finished: false }
    }

    /// Attempts observed so far.
    pub fn attempts(&self) -> (r: u64)
        ensures
            r == self.attempt_count(),
    {
        self.attempts
    }

    /// Whether a terminal step was handed out.
    pub fn finished(&self) -> (r: bool)
        ensures
            r == self.is_finished(),
    {
        self.finished
    }

    /// Takes in the outcome of one more attempt and says what to do next.
    /// Only a failure asks the backoff policy for a delay.
    pub fn observe<T, E>(&mut self, attempt: Attempt<T, E>) -> (s: Step<T, E>)
        requires
            !old(self).is_finished(),
            old(self).attempt_count() < u64::MAX,
        ensures
            final(self).attempt_count() == old(self).attempt_count() + 1,
            final(self).is_finished() == !(s is Wait),
            exists|d: Option<std::time::Duration>| s == next_step(attempt, d),
            !(attempt is Failed) ==> s == next_step(attempt, None),
    {
        self.attempts = self.attempts + 1;
        let delay = match attempt {
            Attempt::Failed(_) => next_delay(&mut self.backoff),
            _ => None,
        };
        let s = decide(attempt, delay);
        self.finished = !matches!(s, Step::Wait(_));
        s
    }
}

/// The steps a lookup takes when its attempts come out as `attempts`, the
/// backoff policy answering the failure of attempt `i` with `delays[i]`: one
/// step per attempt, up to and including the first terminal one.
pub open spec fn steps_of<T, E>(attempts: Seq<Attempt<T, E>>, delays: Seq<Option<std::time::Duration>>) -> Seq<Step<T, E>>
    decreases attempts.len(),
{
    if attempts.len() == 0 {
        Seq::empty()
    } else {
        let s = next_step(attempts[0], delays[0]);
        if s is Wait {
            seq![s] + steps_of(attempts.drop_first(), delays.drop_first())
        } else {
            seq![s]
        }
    }
}

/// How many of `steps` signal a failure.
pub open spec fn failure_signals<T, E>(steps: Seq<Step<T, E>>) -> nat
    decreases steps.len(),
{
    if steps.len() == 0 {
        0
    } else {
        (if steps[0] is GiveUp { 1nat } else { 0nat }) + failure_signals(steps.drop_first())
    }
}

/// Retry then success: after `n` failures, each answered with a delay, an
/// attempt that finds a row (or that no row matches) ends the lookup after
/// `n + 1` attempts with that result, and no failure is signalled.
pub proof fn lemma_retry_then_success<T, E>(
    attempts: Seq<Attempt<T, E>>,
    delays: Seq<Option<std::time::Duration>>,
    n: nat,
)
    requires
        attempts.len() == n + 1,
        delays.len() == n + 1,
        forall|i: int| 0 <= i < n ==> #[trigger] attempts[i] is Failed && delays[i] is Some,
        !(attempts[n as int] is Failed),
    ensures
        steps_of(attempts, delays).len() == n + 1,
        steps_of(attempts, delays).last() == next_step(attempts[n as int], None),
        result_of(steps_of(attempts, delays).last()) == match attempts[n as int] {
            Attempt::Found(row) => Some(row),
            _ => None,
        },
        failure_signals(steps_of(attempts, delays)) == 0,
    decreases n,
{
    let steps = steps_of(attempts, delays);
    if n == 0 {
        assert(steps =~= seq![next_step(attempts[0], delays[0])]);
        assert(steps.drop_first() =~= Seq::<Step<T, E>>::empty());
        assert(failure_signals(steps.drop_first()) == 0);
    } else {
        assert(attempts[0] is Failed);
        let (a, d) = (attempts.drop_first(), delays.drop_first());
        assert forall|i: int| 0 <= i < (n - 1) as nat implies #[trigger] a[i] is Failed && d[i] is Some by {
            assert(attempts[i + 1] is Failed);
        }
        lemma_retry_then_success(a, d, (n - 1) as nat);
        assert(a[n - 1] == attempts[n as int]);
        assert(steps =~= seq![next_step(attempts[0], delays[0])] + steps_of(a, d));
        assert(steps.drop_first() =~= steps_of(a, d));
        assert(steps[0] is Wait);
    }
    assert(failure_signals(steps) == (if steps[0] is GiveUp { 1nat } else { 0nat }) + failure_signals(
        steps.drop_first(),
    ));
}

/// Retry exhaustion: when every attempt up to attempt `k` fails and the
/// backoff policy has no delay left after attempt `k`, the lookup ends there,
/// after `k + 1` attempts, returning `None` and signalling exactly one failure
/// that carries the last error.
pub proof fn lemma_retry_exhaustion<T, E>(
    attempts: Seq<Attempt<T, E>>,
    delays: Seq<Option<std::time::Duration>>,
    k: nat,
)
    requires
        k < attempts.len(),
        attempts.len() == delays.len(),
        forall|i: int| 0 <= i <= k ==> #[trigger] attempts[i] is Failed,
        forall|i: int| 0 <= i < k ==> #[trigger] delays[i] is Some,
        delays[k as int] is None,
    ensures
        steps_of(attempts, delays).len() == k + 1,
        steps_of(attempts, delays).last() == Step::<T, E>::GiveUp(attempts[k as int]->Failed_0),
        result_of(steps_of(attempts, delays).last()) is None,
        failure_signals(steps_of(attempts, delays)) == 1,
    decreases k,
{
    let steps = steps_of(attempts, delays);
    assert(attempts[0] is Failed);
    if k == 0 {
        assert(steps =~= seq![next_step(attempts[0], delays[0])]);
        assert(steps.drop_first() =~= Seq::<Step<T, E>>::empty());
        assert(failure_signals(steps.drop_first()) == 0);
    } else {
        assert(delays[0] is Some);
        let (a, d) = (attempts.drop_first(), delays.drop_first());
        assert forall|i: int| 0 <= i <= (k - 1) as nat implies #[trigger] a[i] is Failed by {
            assert(attempts[i + 1] is Failed);
        }
        assert forall|i: int| 0 <= i < (k - 1) as nat implies #[trigger] d[i] is Some by {
            assert(delays[i + 1] is Some);
        }
        lemma_retry_exhaustion(a, d, (k - 1) as nat);
        assert(a[k - 1] == attempts[k as int]);
        assert(steps =~= seq![next_step(attempts[0], delays[0])] + steps_of(a, d));
        assert(steps.drop_first() =~= steps_of(a, d));
        assert(steps[0] is Wait);
    }
    assert(failure_signals(steps) == (if steps[0] is GiveUp { 1nat } else { 0nat }) + failure_signals(
        steps.drop_first(),
    ));
}

} // verus!
