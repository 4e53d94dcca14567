//! Fixed sequences of fallible steps.
//!
//! Startup and the assembly of the network both run a fixed list of steps in
//! order and give up at the first failure. This module states that rule once,
//! over positions in the list: `0` to `total - 1` are the steps, `total` is
//! "all done" and `total + 1` is "given up".

use vstd::prelude::*;

verus! {

/// How a step ended.
#[derive(Clone, Copy, Debug, PartialEq, Eq, Structural)]
pub enum StageOutcome {
    Succeeded,
    Failed,
}

/// The position reached from `position` when the step there ended with
/// `outcome`, in a sequence of `total` steps.
pub open spec fn position_after(position: nat, total: nat, outcome: StageOutcome) -> nat {
    if position >= total {
        position
    } else if outcome is Failed {
        total + 1
    } else {
        position + 1
    }
}

/// The position reached after a series of outcomes.
pub open spec fn position_after_all(position: nat, total: nat, outcomes: Seq<StageOutcome>) -> nat
    decreases outcomes.len(),
{
    if outcomes.len() == 0 {
        position
    } else {
        position_after_all(
            position_after(position, total, outcomes[0]),
            total,
            outcomes.drop_first(),
        )
    }
}

/// Whether the first `n` outcomes, as far as there are that many, are all
/// successes.
pub open spec fn all_succeeded(outcomes: Seq<StageOutcome>, n: nat) -> bool {
    forall|i: int| 0 <= i < n && i < outcomes.len() ==> outcomes[i] is Succeeded
}

/// Once the sequence has ended, further reports change nothing.
pub proof fn lemma_ended_is_final(position: nat, total: nat, outcomes: Seq<StageOutcome>)
    requires
        position >= total,
    ensures
        position_after_all(position, total, outcomes) == position,
    decreases outcomes.len(),
{
    if outcomes.len() > 0 {
        lemma_ended_is_final(position, total, outcomes.drop_first());
    }
}

/// A run of successes moves forward by exactly as many steps, as long as
/// steps are left.
pub proof fn lemma_successes_advance(position: nat, total: nat, outcomes: Seq<StageOutcome>)
    requires
        position + outcomes.len() <= total,
        all_succeeded(outcomes, outcomes.len()),
    ensures
        position_after_all(position, total, outcomes) == position + outcomes.len(),
    decreases outcomes.len(),
{
    if outcomes.len() > 0 {
        lemma_successes_advance(position + 1, total, outcomes.drop_first());
    }
}

/// A failure reported for a step, after successes only, ends the sequence as
/// given up, whatever is reported afterwards.
pub proof fn lemma_failure_gives_up(
    position: nat,
    total: nat,
    outcomes: Seq<StageOutcome>,
    k: int,
)
    requires
        0 <= k < outcomes.len(),
        position + k < total,
        all_succeeded(outcomes, k as nat),
        outcomes[k] is Failed,
    ensures
        position_after_all(position, total, outcomes) == total + 1,
    decreases outcomes.len(),
{
    let rest = outcomes.drop_first();
    if k == 0 {
        lemma_ended_is_final(total + 1, total, rest);
    } else {
        lemma_failure_gives_up(position + 1, total, rest, k - 1);
    }
}

/// Started at the first step, a sequence ends as "all done" exactly when
/// every one of its steps reported success.
pub proof fn lemma_done_iff_every_step_succeeded(total: nat, outcomes: Seq<StageOutcome>)
    ensures
        position_after_all(0, total, outcomes) == total <==> outcomes.len() >= total
            && all_succeeded(outcomes, total),
        position_after_all(0, total, outcomes) <= total + 1,
{
    if outcomes.len() >= total && all_succeeded(outcomes, total) {
        let head = outcomes.subrange(0, total as int);
        let tail = outcomes.subrange(total as int, outcomes.len() as int);
        lemma_successes_advance(0, total, head);
        lemma_split(0, total, outcomes, total as int);
        lemma_ended_is_final(total, total, tail);
    } else if exists|k: int| 0 <= k < outcomes.len() && k < total && outcomes[k] is Failed {
        lemma_first_failure(outcomes, total);
        lemma_failure_gives_up(0, total, outcomes, first_failure(outcomes, total));
    } else {
        lemma_successes_advance(0, total, outcomes);
    }
}

/// Index of the first failure among the first `limit` outcomes.
spec fn first_failure(outcomes: Seq<StageOutcome>, limit: nat) -> int
    decreases outcomes.len(),
{
    if outcomes.len() == 0 || limit == 0 || outcomes[0] is Failed {
        0
    } else {
        1 + first_failure(outcomes.drop_first(), (limit - 1) as nat)
    }
}

proof fn lemma_first_failure(outcomes: Seq<StageOutcome>, limit: nat)
    requires
        exists|k: int| 0 <= k < outcomes.len() && k < limit && outcomes[k] is Failed,
    ensures
        0 <= first_failure(outcomes, limit) < outcomes.len(),
        first_failure(outcomes, limit) < limit,
        outcomes[first_failure(outcomes, limit)] is Failed,
        all_succeeded(outcomes, first_failure(outcomes, limit) as nat),
    decreases outcomes.len(),
{
    let k = choose|k: int| 0 <= k < outcomes.len() && k < limit && outcomes[k] is Failed;
    if !(outcomes[0] is Failed) {
        let rest = outcomes.drop_first();
        assert(rest[k - 1] == outcomes[k]);
        lemma_first_failure(rest, (limit - 1) as nat);
        let f = first_failure(rest, (limit - 1) as nat);
        assert forall|i: int| 0 <= i < f + 1 && i < outcomes.len() implies outcomes[i]
            is Succeeded by {
            if i > 0 {
                assert(rest[i - 1] == outcomes[i]);
            }
        }
    }
}

proof fn lemma_split(position: nat, total: nat, outcomes: Seq<StageOutcome>, n: int)
    requires
        0 <= n <= outcomes.len(),
    ensures
        position_after_all(position, total, outcomes) == position_after_all(
            position_after_all(position, total, outcomes.subrange(0, n)),
            total,
            outcomes.subrange(n, outcomes.len() as int),
        ),
    decreases n,
{
    if n == 0 {
        assert(outcomes.subrange(0, outcomes.len() as int) =~= outcomes);
    } else {
        let rest = outcomes.drop_first();
        lemma_split(position_after(position, total, outcomes[0]), total, rest, n - 1);
        assert(outcomes.subrange(0, n).drop_first() =~= rest.subrange(0, n - 1));
        assert(rest.subrange(n - 1, rest.len() as int) =~= outcomes.subrange(
            n,
            outcomes.len() as int,
        ));
    }
}

} // verus!
