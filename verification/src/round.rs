//! One round of the concurrent counter demonstration.
//!
//! The mutual-exclusion lock serializes every increment attempt, so a round
//! is faithfully described by the serialized sequence of lock-acquisition
//! outcomes across all of its workers: an acquired lock adds one to the
//! counter, a failed acquisition drops that increment.  `run_worker` and
//! `run_round` execute that description over a [`Counter`], and the lemmas
//! state the round's laws: with a reliable lock the final value is exactly
//! `initial + workers * iterations`, and the value always stays between
//! `initial` and `initial` plus the number of attempts.

use vstd::prelude::*;
use crate::counter::Counter;

verus! {

/// How many rounds the demonstration runs.
pub const ROUNDS: usize = 10;

/// How many workers a round launches.
pub const WORKERS: usize = 100;

/// How many increment attempts each worker makes.
pub const ITERATIONS_PER_WORKER: usize = 100;

/// The value each round's counter starts from.
pub const INITIAL_VALUE: i32 = 10000;

/// How many attempts in `outcomes` acquired the lock.
pub open spec fn count_true(outcomes: Seq<bool>) -> int
    decreases outcomes.len(),
{
    if outcomes.len() == 0 {
        0
    } else {
        count_true(outcomes.drop_last()) + if outcomes.last() {
            1int
        } else {
            0int
        }
    }
}

/// The counter value a round ends with: the initial value plus one for
/// every increment attempt whose lock acquisition succeeded.
pub open spec fn round_final(initial: int, outcomes: Seq<bool>) -> int {
    initial + count_true(outcomes)
}

/// Counting one more attempt, phrased over prefixes.
proof fn lemma_count_true_snoc(outcomes: Seq<bool>, i: int)
    requires
        0 <= i < outcomes.len(),
    ensures
        count_true(outcomes.take(i + 1)) == count_true(outcomes.take(i)) + if outcomes[i] {
            1int
        } else {
            0int
        },
{
    assert(outcomes.take(i + 1).drop_last() =~= outcomes.take(i));
    assert(outcomes.take(i + 1).last() == outcomes[i]);
}

/// Successful acquisitions number at least zero and at most the attempts.
pub proof fn lemma_count_true_bounds(outcomes: Seq<bool>)
    ensures
        0 <= count_true(outcomes) <= outcomes.len(),
    decreases outcomes.len(),
{
    if outcomes.len() > 0 {
        lemma_count_true_bounds(outcomes.drop_last());
    }
}

/// When every acquisition succeeds, every attempt is counted.
pub proof fn lemma_count_true_all(outcomes: Seq<bool>)
    requires
        forall|i: int| 0 <= i < outcomes.len() ==> outcomes[i],
    ensures
        count_true(outcomes) == outcomes.len(),
    decreases outcomes.len(),
{
    if outcomes.len() > 0 {
        assert(outcomes.drop_last() =~= outcomes.take(outcomes.len() - 1));
        lemma_count_true_all(outcomes.drop_last());
    }
}

/// Concurrent increments lose no update when the lock never fails: a round
/// of `workers` workers making `iterations` attempts each, all of which
/// acquire the lock, ends at exactly `initial + workers * iterations`.
pub proof fn lemma_reliable_round(
    initial: int,
    outcomes: Seq<bool>,
    workers: int,
    iterations: int,
)
    requires
        outcomes.len() == workers * iterations,
        forall|i: int| 0 <= i < outcomes.len() ==> outcomes[i],
    ensures
        round_final(initial, outcomes) == initial + workers * iterations,
{
    lemma_count_true_all(outcomes);
}

/// A round's final value never drops below the initial value and never
/// exceeds the initial value plus the number of attempts.
pub proof fn lemma_round_bounds(initial: int, outcomes: Seq<bool>)
    ensures
        initial <= round_final(initial, outcomes) <= initial + outcomes.len(),
{
    lemma_count_true_bounds(outcomes);
}

/// Run one worker's increment attempts against the shared counter, one
/// outcome per attempt; returns how many attempts failed to acquire the
/// lock and therefore dropped their increment.
pub fn run_worker(counter: &mut Counter, outcomes: &Vec<bool>) -> (failures: usize)
    requires
        old(counter).well_formed(),
        old(counter).value() + outcomes@.len() <= i32::MAX,
    ensures
        final(counter).well_formed(),
        final(counter).value() == round_final(old(counter).value(), outcomes@),
        failures as int == outcomes@.len() - count_true(outcomes@),
{
    let mut failures: usize = 0;
    let mut i: usize = 0;
    proof {
        lemma_count_true_bounds(outcomes@);
    }
    while i < outcomes.len()
        invariant
            0 <= i <= outcomes@.len(),
            counter.well_formed(),
            counter.value() == round_final(old(counter).value(), outcomes@.take(i as int)),
            counter.value() + (outcomes@.len() - i) <= i32::MAX,
            failures as int == i - count_true(outcomes@.take(i as int)),
            failures <= i,
        decreases outcomes@.len() - i,
    {
        proof {
            lemma_count_true_snoc(outcomes@, i as int);
            lemma_count_true_bounds(outcomes@.take(i as int));
        }
        if outcomes[i] {
            counter.increment();
        } else {
            failures = failures + 1;
        }
        i = i + 1;
    }
    proof {
        assert(outcomes@.take(outcomes@.len() as int) =~= outcomes@);
    }
    failures
}

/// Tracks how many of a round's workers have completed, so that the
/// round's result can only be read once every worker has finished.  The
/// coordinating thread records each completion as it observes it and asks
/// `report` for the counter text; `report` refuses while any worker is
/// still outstanding.
pub struct CompletionTracker {
    total: usize,
    done: usize,
}

impl CompletionTracker {
    /// How many workers the round launched.
    pub closed spec fn spec_total(&self) -> int {
        self.total as int
    }

    /// How many workers have been recorded as completed.
    pub closed spec fn spec_done(&self) -> int {
        self.done as int
    }

    /// No more completions have been recorded than workers launched.
    pub open spec fn wf(&self) -> bool {
        self.spec_done() <= self.spec_total()
    }

    /// A tracker for a round of `total` workers, none of them finished.
    pub fn new(total: usize) -> (t: CompletionTracker)
        ensures
            t.wf(),
            t.spec_total() == total as int,
            t.spec_done() == 0,
    {
        CompletionTracker { total, done: 0 }
    }

    /// Record that one more worker has completed.
    pub fn worker_done(&mut self)
        requires
            old(self).wf(),
            old(self).spec_done() < old(self).spec_total(),
        ensures
            final(self).wf(),
            final(self).spec_total() == old(self).spec_total(),
            final(self).spec_done() == old(self).spec_done() + 1,
    {
        self.done = self.done + 1;
    }

    /// Whether every worker of the round has completed.
    pub fn all_done(&self) -> (r: bool)
        ensures
            r <==> self.spec_done() == self.spec_total(),
    {
        self.done == self.total
    }

    /// The round's result, handed out only once every worker has
    /// completed; until then there is nothing to read.
    pub fn report<'a>(&self, text: &'a str) -> (r: Option<&'a str>)
        ensures
            r is Some <==> self.spec_done() == self.spec_total(),
            r is Some ==> r->0@ == text@,
    {
        if self.done == self.total {
            Some(text)
        } else {
            None
        }
    }
}

/// Run a whole round: start a fresh counter at `initial` and apply the
/// serialized increment attempts of all its workers.  Returns the final
/// counter and the number of dropped increments.
pub fn run_round(initial: i32, outcomes: &Vec<bool>) -> (r: (Counter, usize))
    requires
        initial >= 0,
        initial + outcomes@.len() <= i32::MAX,
    ensures
        r.0.well_formed(),
        r.0.value() == round_final(initial as int, outcomes@),
        r.1 as int == outcomes@.len() - count_true(outcomes@),
{
    let mut counter = Counter::new(initial);
    let failures = run_worker(&mut counter, outcomes);
    (counter, failures)
}

} // verus!
