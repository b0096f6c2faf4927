use vstd::prelude::*;
use crate::payout::{lemma_payout_bounded, lemma_score_bounded};
use crate::quiz::{payout_for, submission_step, Quiz};

verus! {

/// `states` is a record's history under the submissions `answers`: each state
/// follows from the one before by a successful submission of the matching
/// answers.
pub open spec fn is_history(states: Seq<Quiz>, answers: Seq<Seq<u8>>) -> bool {
    &&& states.len() == answers.len() + 1
    &&& forall|i: int|
        0 <= i < answers.len() ==> #[trigger] submission_step(states[i], answers[i], states[i + 1])
}

/// The sum of the payouts of the first `n` submissions of a history.
pub open spec fn total_paid(states: Seq<Quiz>, answers: Seq<Seq<u8>>, n: int) -> int
    decreases n,
{
    if n <= 0 {
        0
    } else {
        total_paid(states, answers, n - 1) + payout_for(states[n - 1], answers[n - 1])
    }
}

/// One step of a history pays no more than the pool it starts from, and the
/// pool shrinks by exactly what was paid.
proof fn lemma_step_pays_from_pool(pre: Quiz, answers: Seq<u8>, post: Quiz)
    requires
        submission_step(pre, answers, post),
    ensures
        0 <= payout_for(pre, answers) <= pre.reward_pool,
        post.reward_pool == pre.reward_pool - payout_for(pre, answers),
{
    lemma_score_bounded(answers, pre.correct_answers@);
    lemma_payout_bounded(
        pre.reward_pool as int,
        crate::payout::score_of(answers, pre.correct_answers@) as int,
        pre.correct_answers@.len() as int,
    );
}

/// Over any history, the payouts add up to what left the pool, so together
/// they never exceed the amount the record started with.
pub proof fn lemma_cumulative_payout_bounded(states: Seq<Quiz>, answers: Seq<Seq<u8>>)
    requires
        is_history(states, answers),
    ensures
        total_paid(states, answers, answers.len() as int) == states[0].reward_pool
            - states.last().reward_pool,
        0 <= total_paid(states, answers, answers.len() as int) <= states[0].reward_pool,
    decreases answers.len(),
{
    let n = answers.len() as int;
    if n > 0 {
        let prefix_states = states.take(n);
        let prefix_answers = answers.take(n - 1);
        assert forall|i: int| 0 <= i < prefix_answers.len() implies #[trigger] submission_step(
            prefix_states[i],
            prefix_answers[i],
            prefix_states[i + 1],
        ) by {
            assert(submission_step(states[i], answers[i], states[i + 1]));
        }
        lemma_cumulative_payout_bounded(prefix_states, prefix_answers);
        lemma_total_paid_prefix(states, answers, prefix_states, prefix_answers, n - 1);
        assert(submission_step(states[n - 1], answers[n - 1], states[n]));
        lemma_step_pays_from_pool(states[n - 1], answers[n - 1], states[n]);
    }
}

/// The sum over the first `k` steps depends only on those steps.
proof fn lemma_total_paid_prefix(
    states: Seq<Quiz>,
    answers: Seq<Seq<u8>>,
    prefix_states: Seq<Quiz>,
    prefix_answers: Seq<Seq<u8>>,
    k: int,
)
    requires
        0 <= k,
        k <= prefix_answers.len(),
        k <= prefix_states.len(),
        prefix_states.len() <= states.len(),
        prefix_answers.len() <= answers.len(),
        forall|i: int| 0 <= i < prefix_states.len() ==> prefix_states[i] == states[i],
        forall|i: int| 0 <= i < prefix_answers.len() ==> prefix_answers[i] == answers[i],
    ensures
        total_paid(prefix_states, prefix_answers, k) == total_paid(states, answers, k),
    decreases k,
{
    if k > 0 {
        lemma_total_paid_prefix(states, answers, prefix_states, prefix_answers, k - 1);
    }
}

/// Over any history, each submission counts exactly one participant: a record
/// created with none counts as many as there were submissions.
pub proof fn lemma_participants_count(states: Seq<Quiz>, answers: Seq<Seq<u8>>)
    requires
        is_history(states, answers),
    ensures
        states.last().participants == states[0].participants + answers.len(),
        states[0].participants == 0 ==> states.last().participants == answers.len(),
    decreases answers.len(),
{
    let n = answers.len() as int;
    if n > 0 {
        let prefix_states = states.take(n);
        let prefix_answers = answers.take(n - 1);
        assert forall|i: int| 0 <= i < prefix_answers.len() implies #[trigger] submission_step(
            prefix_states[i],
            prefix_answers[i],
            prefix_states[i + 1],
        ) by {
            assert(submission_step(states[i], answers[i], states[i + 1]));
        }
        lemma_participants_count(prefix_states, prefix_answers);
        assert(submission_step(states[n - 1], answers[n - 1], states[n]));
    }
}

/// An inactive record has no successor: no submission succeeds against it, so
/// deactivation is final.
pub proof fn lemma_inactive_is_terminal(pre: Quiz, answers: Seq<u8>, post: Quiz)
    requires
        !pre.is_active,
    ensures
        !submission_step(pre, answers, post),
{
}

/// Every state of a history keeps the shape of the first: one option list
/// and one correct answer per question.
pub proof fn lemma_history_keeps_shape(states: Seq<Quiz>, answers: Seq<Seq<u8>>)
    requires
        is_history(states, answers),
        states[0].wf(),
    ensures
        forall|i: int| 0 <= i < states.len() ==> #[trigger] states[i].wf(),
    decreases answers.len(),
{
    let n = answers.len() as int;
    if n > 0 {
        let prefix_states = states.take(n);
        let prefix_answers = answers.take(n - 1);
        assert forall|i: int| 0 <= i < prefix_answers.len() implies #[trigger] submission_step(
            prefix_states[i],
            prefix_answers[i],
            prefix_states[i + 1],
        ) by {
            assert(submission_step(states[i], answers[i], states[i + 1]));
        }
        lemma_history_keeps_shape(prefix_states, prefix_answers);
        assert(prefix_states[n - 1] == states[n - 1]);
        assert(submission_step(states[n - 1], answers[n - 1], states[n]));
        assert forall|i: int| 0 <= i < states.len() implies #[trigger] states[i].wf() by {
            if i < n {
                assert(prefix_states[i] == states[i]);
            } else {
                assert(prefix_states[n - 1].wf());
            }
        }
    }
}

} // verus!
