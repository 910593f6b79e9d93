//! The bounded retry policy around the runtime measurement.
//!
//! An operation is attempted once and, while it fails, up to `retries` more
//! times, at once and from scratch. The first success is returned
//! immediately; when every attempt has failed, the last failure is returned.

use vstd::prelude::*;

verus! {

/// The number of retries granted to the runtime measurement.
pub const MEASURE_RETRIES: usize = 3;

/// What the policy makes of one attempt's outcome.
#[derive(Debug, PartialEq, Eq)]
pub enum Verdict<T, E> {
    /// The run is over, with this result.
    Settled(Result<T, E>),
    /// The attempt failed and another one is due.
    Again,
}

/// The policy itself: a success settles the run, a failure settles it only
/// when `failures` earlier attempts have used up all `retries`.
pub open spec fn verdict<T, E>(failures: nat, retries: nat, outcome: Result<T, E>) -> Verdict<
    T,
    E,
> {
    match outcome {
        Ok(value) => Verdict::Settled(Ok(value)),
        Err(error) => if failures < retries {
            Verdict::Again
        } else {
            Verdict::Settled(Err(error))
        },
    }
}

/// The number of attempts of a run whose `done` first attempts have failed
/// and whose further attempts end as `outcomes` says, one entry per attempt.
pub open spec fn attempts_from<T, E>(outcomes: Seq<Result<T, E>>, retries: nat, done: nat) -> nat
    decreases retries - done,
{
    if done < retries && done < outcomes.len() && outcomes[done as int] is Err {
        attempts_from(outcomes, retries, done + 1)
    } else {
        done + 1
    }
}

/// The number of attempts that the policy makes when attempt `i` ends as
/// `outcomes[i]`.
pub open spec fn attempts<T, E>(outcomes: Seq<Result<T, E>>, retries: nat) -> nat {
    attempts_from(outcomes, retries, 0)
}

/// The result of the run: the outcome of its last attempt.
pub open spec fn final_outcome<T, E>(outcomes: Seq<Result<T, E>>, retries: nat) -> Result<T, E> {
    outcomes[attempts(outcomes, retries) - 1]
}

/// Applies the policy to the outcome of one attempt, `failures` attempts
/// having failed before it.
pub fn decide<T, E>(failures: usize, retries: usize, outcome: Result<T, E>) -> (next: Verdict<
    T,
    E,
>)
    ensures
        next == verdict(failures as nat, retries as nat, outcome),
{
    match outcome {
        Ok(value) => Verdict::Settled(Ok(value)),
        Err(error) => {
            if failures < retries {
                Verdict::Again
            } else {
                Verdict::Settled(Err(error))
            }
        },
    }
}

/// A run whose attempts before `last` all fail, and whose attempt `last`
/// either succeeds or is the last one allowed, makes `last + 1` attempts.
proof fn lemma_attempts_from<T, E>(
    outcomes: Seq<Result<T, E>>,
    retries: nat,
    last: nat,
    done: nat,
)
    requires
        done <= last <= retries,
        last < outcomes.len(),
        forall|i: int| 0 <= i < last ==> (#[trigger] outcomes[i]) is Err,
        outcomes[last as int] is Ok || last == retries,
    ensures
        attempts_from(outcomes, retries, done) == last + 1,
    decreases last - done,
{
    if done < last {
        lemma_attempts_from(outcomes, retries, last, done + 1);
    }
}

/// An operation that fails `failures` times, no more often than there are
/// retries, and then succeeds is attempted exactly `failures + 1` times, and
/// the run returns that success.
pub proof fn lemma_retry_returns_first_success<T, E>(
    outcomes: Seq<Result<T, E>>,
    retries: nat,
    failures: nat,
)
    requires
        failures <= retries,
        failures < outcomes.len(),
        forall|i: int| 0 <= i < failures ==> (#[trigger] outcomes[i]) is Err,
        outcomes[failures as int] is Ok,
    ensures
        attempts(outcomes, retries) == failures + 1,
        final_outcome(outcomes, retries) == outcomes[failures as int],
{
    lemma_attempts_from(outcomes, retries, failures, 0);
}

/// An operation that always fails is attempted exactly
/// `retries + 1` times, and the run returns the last failure.
pub proof fn lemma_retry_exhausts<T, E>(outcomes: Seq<Result<T, E>>, retries: nat)
    requires
        retries < outcomes.len(),
        forall|i: int| 0 <= i <= retries ==> (#[trigger] outcomes[i]) is Err,
    ensures
        attempts(outcomes, retries) == retries + 1,
        final_outcome(outcomes, retries) == outcomes[retries as int],
{
    lemma_attempts_from(outcomes, retries, retries, 0);
}

/// A run follows the policy attempt by attempt: the policy asks for another
/// attempt after every attempt but the last, and settles the run on the
/// outcome of the last.
pub proof fn lemma_run_follows_policy<T, E>(outcomes: Seq<Result<T, E>>, retries: nat)
    requires
        attempts(outcomes, retries) <= outcomes.len(),
    ensures
        forall|i: int|
            0 <= i < attempts(outcomes, retries) - 1 ==> verdict(
                i as nat,
                retries,
                #[trigger] outcomes[i],
            ) is Again,
        verdict(
            (attempts(outcomes, retries) - 1) as nat,
            retries,
            final_outcome(outcomes, retries),
        ) == Verdict::Settled(final_outcome(outcomes, retries)),
{
    lemma_policy_from(outcomes, retries, 0);
}

proof fn lemma_policy_from<T, E>(outcomes: Seq<Result<T, E>>, retries: nat, done: nat)
    requires
        attempts_from(outcomes, retries, done) <= outcomes.len(),
        done <= retries,
    ensures
        forall|i: int|
            done <= i < attempts_from(outcomes, retries, done) - 1 ==> verdict(
                i as nat,
                retries,
                #[trigger] outcomes[i],
            ) is Again,
        verdict(
            (attempts_from(outcomes, retries, done) - 1) as nat,
            retries,
            outcomes[attempts_from(outcomes, retries, done) - 1],
        ) == Verdict::Settled(outcomes[attempts_from(outcomes, retries, done) - 1]),
    decreases retries - done,
{
    if done < retries && done < outcomes.len() && outcomes[done as int] is Err {
        lemma_policy_from(outcomes, retries, done + 1);
    }
}

/// No run makes more than `retries + 1` attempts, and none makes fewer than
/// one.
pub proof fn lemma_attempts_bounded<T, E>(outcomes: Seq<Result<T, E>>, retries: nat)
    ensures
        1 <= attempts(outcomes, retries) <= retries + 1,
{
    lemma_attempts_from_bounded(outcomes, retries, 0);
}

proof fn lemma_attempts_from_bounded<T, E>(outcomes: Seq<Result<T, E>>, retries: nat, done: nat)
    requires
        done <= retries,
    ensures
        done + 1 <= attempts_from(outcomes, retries, done) <= retries + 1,
    decreases retries - done,
{
    if done < retries && done < outcomes.len() && outcomes[done as int] is Err {
        lemma_attempts_from_bounded(outcomes, retries, done + 1);
    }
}

/// Whether `trace` lists the outcomes of a whole run of the policy on
/// `operation`, and `result` is what that run returns: every entry is an
/// outcome that the operation can have, there are exactly as many entries as
/// the policy prescribes attempts, and the result is the last of them.
pub open spec fn is_run_of<F, T, E>(
    operation: F,
    retries: nat,
    trace: Seq<Result<T, E>>,
    result: Result<T, E>,
) -> bool where F: FnMut() -> Result<T, E> {
    &&& trace.len() == attempts(trace, retries)
    &&& forall|i: int| 0 <= i < trace.len() ==> call_ensures(operation, (), #[trigger] trace[i])
    &&& result == final_outcome(trace, retries)
}

/// Attempts `operation` until it succeeds or `retries` retries are used up.
///
/// The outcomes of the attempts made form a trace; the run makes exactly
/// the attempts that the policy prescribes for that trace and returns the
/// outcome of the last.
pub fn retry<F, T, E>(operation: F, retries: usize) -> (result: Result<T, E>) where
    F: FnMut() -> Result<T, E>,

    requires
        call_requires(operation, ()),
    ensures
        exists|trace: Seq<Result<T, E>>| #[trigger]
            is_run_of(operation, retries as nat, trace, result),
{
    let mut attempt = operation;
    let mut failures: usize = 0;
    let ghost mut trace: Seq<Result<T, E>> = Seq::empty();
    loop
        invariant
            attempt == operation,
            call_requires(operation, ()),
            failures <= retries,
            trace.len() == failures,
            forall|i: int| 0 <= i < trace.len() ==> (#[trigger] trace[i]) is Err,
            forall|i: int| 0 <= i < trace.len() ==> call_ensures(operation, (), #[trigger] trace[i]),
        decreases retries - failures,
    {
        let outcome = attempt();
        let ghost earlier = trace;
        proof {
            trace = earlier.push(outcome);
            assert forall|i: int| 0 <= i < trace.len() implies call_ensures(
                operation,
                (),
                #[trigger] trace[i],
            ) by {
                if i < earlier.len() {
                    assert(trace[i] == earlier[i]);
                }
            }
            assert forall|i: int| 0 <= i < failures implies (#[trigger] trace[i]) is Err by {
                assert(trace[i] == earlier[i]);
            }
        }
        match decide(failures, retries, outcome) {
            Verdict::Settled(result) => {
                proof {
                    lemma_attempts_from(trace, retries as nat, failures as nat, 0);
                    assert(is_run_of(operation, retries as nat, trace, result));
                }
                return result;
            },
            Verdict::Again => {
                failures += 1;
            },
        }
    }
}

} // verus!
