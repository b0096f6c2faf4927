use vstd::prelude::*;
use crate::error::ErrorCode;

verus! {

/// How many of the first `n` answers match the correct answer at the same
/// position.
pub open spec fn matches_in_prefix(answers: Seq<u8>, correct: Seq<u8>, n: int) -> nat
    decreases n,
{
    if n <= 0 {
        0
    } else {
        matches_in_prefix(answers, correct, n - 1) + if answers[n - 1] == correct[n - 1] {
            1nat
        } else {
            0nat
        }
    }
}

/// The score of a submission: the number of positions at which the answer
/// equals the correct answer.
pub open spec fn score_of(answers: Seq<u8>, correct: Seq<u8>) -> nat {
    matches_in_prefix(answers, correct, answers.len() as int)
}

/// The share of `pool` that a score earns: `pool * score / total`, rounded
/// down; nothing when there are no questions.
pub open spec fn payout_of(pool: int, score: int, total: int) -> int {
    if total == 0 {
        0
    } else {
        (pool * score) / total
    }
}

/// A prefix never holds more matches than positions.
pub proof fn lemma_matches_in_prefix_bounded(answers: Seq<u8>, correct: Seq<u8>, n: int)
    requires
        0 <= n,
    ensures
        matches_in_prefix(answers, correct, n) <= n,
    decreases n,
{
    if n > 0 {
        lemma_matches_in_prefix_bounded(answers, correct, n - 1);
    }
}

/// A score is at most the number of questions.
pub proof fn lemma_score_bounded(answers: Seq<u8>, correct: Seq<u8>)
    ensures
        score_of(answers, correct) <= answers.len(),
{
    lemma_matches_in_prefix_bounded(answers, correct, answers.len() as int);
}

/// A payout for a score no higher than the number of questions never exceeds
/// the pool it is drawn from.
pub proof fn lemma_payout_bounded(pool: int, score: int, total: int)
    requires
        0 <= pool,
        0 <= score <= total,
    ensures
        0 <= payout_of(pool, score, total) <= pool,
{
    if total > 0 {
        assert(0 <= pool * score <= pool * total) by (nonlinear_arith)
            requires
                0 <= pool,
                0 <= score <= total,
        ;
        vstd::arithmetic::div_mod::lemma_div_is_ordered(pool * score, pool * total, total);
        vstd::arithmetic::div_mod::lemma_div_by_multiple(pool, total);
        vstd::arithmetic::div_mod::lemma_div_pos_is_pos(pool * score, total);
    }
}

/// Counts the positions at which `answers` and `correct_answers` agree.
pub fn score(answers: &Vec<u8>, correct_answers: &Vec<u8>) -> (r: usize)
    requires
        answers.len() == correct_answers.len(),
    ensures
        r == score_of(answers@, correct_answers@),
{
    let mut count: usize = 0;
    let mut i: usize = 0;
    while i < answers.len()
        invariant
            answers.len() == correct_answers.len(),
            i <= answers.len(),
            count == matches_in_prefix(answers@, correct_answers@, i as int),
        decreases answers.len() - i,
    {
        proof {
            lemma_matches_in_prefix_bounded(answers@, correct_answers@, i as int);
        }
        if answers[i] == correct_answers[i] {
            count = count + 1;
        }
        i = i + 1;
    }
    count
}

/// The payout for `score` correct answers out of `total` questions from a
/// pool of `pool` units, rounded down, computed exactly in wide integers.
/// Fails with `ArithmeticOverflow` only when the share does not fit in `u64`,
/// which takes a score above the number of questions.
pub fn compute_payout(pool: u64, score: usize, total: usize) -> (r: Result<u64, ErrorCode>)
    ensures
        payout_of(pool as int, score as int, total as int) <= u64::MAX ==> r == Ok::<u64, ErrorCode>(
            payout_of(pool as int, score as int, total as int) as u64,
        ),
        payout_of(pool as int, score as int, total as int) > u64::MAX ==> r == Err::<u64, ErrorCode>(
            ErrorCode::ArithmeticOverflow,
        ),
        score <= total ==> r is Ok,
{
    if total == 0 {
        return Ok(0);
    }
    let wide_pool = pool as u128;
    let wide_score = score as u128;
    assert(wide_pool * wide_score <= u64::MAX * u64::MAX) by (nonlinear_arith)
        requires
            wide_pool <= u64::MAX,
            wide_score <= u64::MAX,
    ;
    let share = wide_pool * wide_score / (total as u128);
    proof {
        if score <= total {
            lemma_payout_bounded(pool as int, score as int, total as int);
        }
    }
    if share > u64::MAX as u128 {
        Err(ErrorCode::ArithmeticOverflow)
    } else {
        Ok(share as u64)
    }
}

/// Moves `amount` units from one balance to another, returning the two new
/// balances. Fails, with both balances untouched, when the source holds less
/// than `amount` (`InsufficientFunds`) or the destination would overflow
/// (`ArithmeticOverflow`).
pub fn move_funds(from_balance: u64, to_balance: u64, amount: u64) -> (r: Result<(u64, u64), ErrorCode>)
    ensures
        amount > from_balance ==> r == Err::<(u64, u64), ErrorCode>(ErrorCode::InsufficientFunds),
        amount <= from_balance && to_balance + amount > u64::MAX ==> r == Err::<(u64, u64), ErrorCode>(
            ErrorCode::ArithmeticOverflow,
        ),
        amount <= from_balance && to_balance + amount <= u64::MAX ==> r == Ok::<(u64, u64), ErrorCode>(
            ((from_balance - amount) as u64, (to_balance + amount) as u64),
        ),
{
    if amount > from_balance {
        return Err(ErrorCode::InsufficientFunds);
    }
    match to_balance.checked_add(amount) {
        Some(credited) => Ok((from_balance - amount, credited)),
        None => Err(ErrorCode::ArithmeticOverflow),
    }
}

} // verus!
