use vstd::prelude::*;

use crate::run::{attempt_step, initial, run_wf, verdict_step, Action, Phase, RunState};

verus! {

/// A whole run from state `s`, driven by the predicate's verdicts:
/// `verdicts[i]` is what the predicate says of the result of attempt `i + 1`.
/// Gives the final state and the attempt numbers of the pauses, in order.
pub open spec fn drive(s: RunState, verdicts: Seq<bool>) -> (RunState, Seq<nat>)
    decreases s.max_retries - s.attempts,
{
    if !run_wf(s) || s.phase != Phase::Attempting {
        (s, seq![])
    } else {
        let (s1, a1) = attempt_step(s);
        if a1 == Action::Return {
            (s1, seq![])
        } else {
            let (s2, a2) = verdict_step(s1, verdicts[s1.attempts - 1]);
            if a2 == Action::Return {
                (s2, seq![])
            } else {
                let (s3, pauses) = drive(s2, verdicts);
                (s3, seq![s1.attempts].add(pauses))
            }
        }
    }
}

/// The attempt that ends a run which has made `done` attempts: the first
/// later one that is the last allowed or that the predicate rejects.
pub open spec fn stopping_attempt(max_retries: nat, verdicts: Seq<bool>, done: nat) -> nat
    decreases max_retries - done,
{
    if done + 1 >= max_retries {
        max_retries
    } else if !verdicts[done as int] {
        done + 1
    } else {
        stopping_attempt(max_retries, verdicts, done + 1)
    }
}

proof fn lemma_drive_from(s: RunState, verdicts: Seq<bool>)
    requires
        run_wf(s),
        s.phase == Phase::Attempting,
    ensures
        ({
            let (f, pauses) = drive(s, verdicts);
            &&& run_wf(f)
            &&& f.phase == Phase::Finished
            &&& f.max_retries == s.max_retries
            &&& f.attempts == stopping_attempt(s.max_retries, verdicts, s.attempts)
            &&& s.attempts < f.attempts
            &&& pauses =~= Seq::new((f.attempts - s.attempts - 1) as nat, |i: int| (s.attempts + 1 + i) as nat)
        }),
    decreases s.max_retries - s.attempts,
{
    let (s1, a1) = attempt_step(s);
    if a1 != Action::Return {
        let (s2, a2) = verdict_step(s1, verdicts[s1.attempts - 1]);
        if a2 != Action::Return {
            lemma_drive_from(s2, verdicts);
        }
    }
}

/// Every run makes at least one attempt and at most `max_retries`, and
/// ends with the latest result returned.
pub proof fn lemma_attempt_bounds(max_retries: nat, verdicts: Seq<bool>)
    requires
        1 <= max_retries <= u8::MAX,
    ensures
        ({
            let f = drive(initial(max_retries), verdicts).0;
            &&& f.phase == Phase::Finished
            &&& 1 <= f.attempts <= max_retries
        }),
{
    lemma_drive_from(initial(max_retries), verdicts);
}

/// When the predicate asks for a retry after each of the first `k - 1`
/// attempts and rejects the result of attempt `k`, the run stops after
/// exactly `k` attempts, with no pause after the last.
pub proof fn lemma_stops_when_rejected(max_retries: nat, verdicts: Seq<bool>, k: nat)
    requires
        1 <= max_retries <= u8::MAX,
        1 <= k <= max_retries,
        k <= verdicts.len(),
        forall|j: int| 0 <= j < k - 1 ==> verdicts[j],
        !verdicts[k - 1],
    ensures
        ({
            let (f, pauses) = drive(initial(max_retries), verdicts);
            &&& f.attempts == k
            &&& pauses.len() + 1 == k
        }),
{
    lemma_drive_from(initial(max_retries), verdicts);
    lemma_stopping_attempt_rejected(max_retries, verdicts, k, 0);
}

/// When the predicate asks for a retry after each attempt but the last
/// allowed, the run makes all `max_retries` attempts and returns the last
/// result whatever the predicate would say of it.
pub proof fn lemma_last_attempt_unconditional(max_retries: nat, verdicts: Seq<bool>)
    requires
        1 <= max_retries <= u8::MAX,
        forall|j: int| 0 <= j < max_retries - 1 ==> verdicts[j],
    ensures
        drive(initial(max_retries), verdicts).0.attempts == max_retries,
{
    lemma_drive_from(initial(max_retries), verdicts);
    lemma_stopping_attempt_exhausted(max_retries, verdicts, 0);
}

/// The pause before attempt `k` is the backoff of attempt `k - 1`: a run
/// that makes `n` attempts pauses for attempts `1, ..., n - 1` in that
/// order, never before its first attempt nor after its last.
pub proof fn lemma_pause_schedule(max_retries: nat, verdicts: Seq<bool>)
    requires
        1 <= max_retries <= u8::MAX,
    ensures
        ({
            let (f, pauses) = drive(initial(max_retries), verdicts);
            &&& pauses.len() + 1 == f.attempts
            &&& forall|i: int| 0 <= i < pauses.len() ==> #[trigger] pauses[i] == i + 1
        }),
{
    lemma_drive_from(initial(max_retries), verdicts);
}

proof fn lemma_stopping_attempt_rejected(max_retries: nat, verdicts: Seq<bool>, k: nat, done: nat)
    requires
        done < k <= max_retries,
        k <= verdicts.len(),
        forall|j: int| done <= j < k - 1 ==> verdicts[j],
        !verdicts[k - 1],
    ensures
        stopping_attempt(max_retries, verdicts, done) == k,
    decreases k - done,
{
    if done + 1 < max_retries && verdicts[done as int] {
        lemma_stopping_attempt_rejected(max_retries, verdicts, k, done + 1);
    }
}

proof fn lemma_stopping_attempt_exhausted(max_retries: nat, verdicts: Seq<bool>, done: nat)
    requires
        done < max_retries,
        forall|j: int| done <= j < max_retries - 1 ==> verdicts[j],
    ensures
        stopping_attempt(max_retries, verdicts, done) == max_retries,
    decreases max_retries - done,
{
    if done + 1 < max_retries {
        lemma_stopping_attempt_exhausted(max_retries, verdicts, done + 1);
    }
}

} // verus!
