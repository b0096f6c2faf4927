use vstd::prelude::*;
use crate::error::ErrorCode;
use crate::payout::{
    compute_payout,
    lemma_payout_bounded,
    lemma_score_bounded,
    move_funds,
    payout_of,
    score,
    score_of,
};

verus! {

/// The 32-byte identity key of an account on the ledger.
#[derive(Clone, Copy, Debug, PartialEq, Eq)]
pub struct AccountKey {
    pub bytes: [u8; 32],
}

/// A contest record: its content, its escrowed reward pool, how many
/// submissions it has paid, and whether it still accepts submissions.
#[derive(Clone, Debug, PartialEq, Eq)]
pub struct Quiz {
    pub creator: AccountKey,
    pub title: String,
    pub description: String,
    pub questions: Vec<String>,
    pub options: Vec<Vec<String>>,
    pub correct_answers: Vec<u8>,
    /// Units still held in escrow for payouts.
    pub reward_pool: u64,
    /// Number of successful submissions.
    pub participants: u64,
    pub is_active: bool,
}

/// The accounts that creating a contest touches: the slot the record is
/// created in (empty beforehand), and the creator who funds it.
#[derive(Clone, Debug)]
pub struct InitializeQuiz {
    pub quiz: Option<Quiz>,
    pub creator: AccountKey,
    pub creator_balance: u64,
}

/// The accounts that a submission touches: the contest record and the
/// participant who is paid.
#[derive(Clone, Debug)]
pub struct SubmitAnswers {
    pub quiz: Quiz,
    pub participant: AccountKey,
    pub participant_balance: u64,
}

/// There is one option list and one correct answer per question.
pub open spec fn sizes_agree(questions: Seq<String>, options: Seq<Vec<String>>, correct: Seq<u8>) -> bool {
    questions.len() == options.len() && options.len() == correct.len()
}

impl Quiz {
    /// The record's shape: one option list and one correct answer per
    /// question.
    pub open spec fn wf(self) -> bool {
        sizes_agree(self.questions@, self.options@, self.correct_answers@)
    }
}

/// The error with which creating a contest fails, if any, checked in this
/// order.
pub open spec fn initialization_error(
    ctx: InitializeQuiz,
    questions: Seq<String>,
    options: Seq<Vec<String>>,
    correct: Seq<u8>,
    reward: u64,
) -> Option<ErrorCode> {
    if ctx.quiz is Some {
        Some(ErrorCode::AccountAlreadyInitialized)
    } else if !sizes_agree(questions, options, correct) {
        Some(ErrorCode::SizeMismatch)
    } else if reward > ctx.creator_balance {
        Some(ErrorCode::InsufficientFunds)
    } else {
        None
    }
}

/// The payout that `answers` earn against `quiz` as it stands.
pub open spec fn payout_for(quiz: Quiz, answers: Seq<u8>) -> int {
    payout_of(
        quiz.reward_pool as int,
        score_of(answers, quiz.correct_answers@) as int,
        quiz.correct_answers@.len() as int,
    )
}

/// The error with which a submission of `answers` fails, if any, checked in
/// this order.
pub open spec fn submission_error(ctx: SubmitAnswers, answers: Seq<u8>) -> Option<ErrorCode> {
    if !ctx.quiz.is_active {
        Some(ErrorCode::QuizInactive)
    } else if answers.len() != ctx.quiz.correct_answers@.len() {
        Some(ErrorCode::InvalidAnswerCount)
    } else if ctx.quiz.participants == u64::MAX || ctx.participant_balance + payout_for(
        ctx.quiz,
        answers,
    ) > u64::MAX {
        Some(ErrorCode::ArithmeticOverflow)
    } else {
        None
    }
}

/// `post` is the record `pre` after a successful submission of `answers`:
/// the payout has left the pool, one more participant is counted, and the
/// record is deactivated exactly when the pool is empty. Nothing else changes.
pub open spec fn submission_step(pre: Quiz, answers: Seq<u8>, post: Quiz) -> bool {
    &&& pre.is_active
    &&& answers.len() == pre.correct_answers@.len()
    &&& pre.participants < u64::MAX
    &&& post == Quiz {
        creator: pre.creator,
        title: pre.title,
        description: pre.description,
        questions: pre.questions,
        options: pre.options,
        correct_answers: pre.correct_answers,
        reward_pool: (pre.reward_pool - payout_for(pre, answers)) as u64,
        participants: (pre.participants + 1) as u64,
        is_active: pre.reward_pool - payout_for(pre, answers) != 0,
    }
}

/// Creates a contest record in the empty slot of `ctx` and funds its escrow
/// with `reward` units from the creator's balance. The record holds the
/// given content verbatim, no participants, and is active. Fails, changing
/// nothing, when the slot is taken, when the question, option and answer
/// lists differ in length, or when the creator cannot cover the reward.
pub fn initialize_quiz(
    ctx: &mut InitializeQuiz,
    title: String,
    description: String,
    questions: Vec<String>,
    options: Vec<Vec<String>>,
    correct_answers: Vec<u8>,
    reward: u64,
) -> (r: Result<(), ErrorCode>)
    ensures
        initialization_error(*old(ctx), questions@, options@, correct_answers@, reward) matches Some(
            e,
        ) ==> r == Err::<(), ErrorCode>(e) && *final(ctx) == *old(ctx),
        initialization_error(*old(ctx), questions@, options@, correct_answers@, reward) is None ==> {
            &&& r is Ok
            &&& final(ctx).quiz == Some(
                Quiz {
                    creator: old(ctx).creator,
                    title,
                    description,
                    questions,
                    options,
                    correct_answers,
                    reward_pool: reward,
                    participants: 0,
                    is_active: true,
                },
            )
            &&& final(ctx).creator == old(ctx).creator
            &&& final(ctx).creator_balance == old(ctx).creator_balance - reward
        },
        r is Ok ==> (final(ctx).quiz matches Some(q) && q.wf()),
{
    if ctx.quiz.is_some() {
        return Err(ErrorCode::AccountAlreadyInitialized);
    }
    if questions.len() != options.len() || options.len() != correct_answers.len() {
        return Err(ErrorCode::SizeMismatch);
    }
    let (creator_balance, escrow) = match move_funds(ctx.creator_balance, 0, reward) {
        Ok(balances) => balances,
        Err(e) => {
            return Err(e);
        },
    };
    ctx.creator_balance = creator_balance;
    ctx.quiz = Some(
        Quiz {
            creator: ctx.creator,
            title,
            description,
            questions,
            options,
            correct_answers,
            reward_pool: escrow,
            participants: 0,
            is_active: true,
        },
    );
    Ok(())
}

/// Scores `answers` against the record of `ctx` and pays the participant
/// `floor(pool * score / questions)` from the escrow. Counts the participant
/// and deactivates the record when the pool is left empty. Fails, changing
/// nothing, when the record is inactive, when the number of answers is
/// wrong, or when the participant count or balance would overflow.
pub fn submit_answers(ctx: &mut SubmitAnswers, answers: Vec<u8>) -> (r: Result<(), ErrorCode>)
    ensures
        submission_error(*old(ctx), answers@) matches Some(e) ==> r == Err::<(), ErrorCode>(e)
            && *final(ctx) == *old(ctx),
        submission_error(*old(ctx), answers@) is None ==> {
            &&& r is Ok
            &&& submission_step(old(ctx).quiz, answers@, final(ctx).quiz)
            &&& final(ctx).participant == old(ctx).participant
            &&& final(ctx).participant_balance == old(ctx).participant_balance + payout_for(
                old(ctx).quiz,
                answers@,
            )
        },
        r is Ok ==> payout_for(old(ctx).quiz, answers@) <= old(ctx).quiz.reward_pool,
        !old(ctx).quiz.is_active ==> r == Err::<(), ErrorCode>(ErrorCode::QuizInactive)
            && *final(ctx) == *old(ctx),
        old(ctx).quiz.wf() ==> final(ctx).quiz.wf(),
{
    if !ctx.quiz.is_active {
        return Err(ErrorCode::QuizInactive);
    }
    let total = ctx.quiz.correct_answers.len();
    if answers.len() != total {
        return Err(ErrorCode::InvalidAnswerCount);
    }
    let points = score(&answers, &ctx.quiz.correct_answers);
    proof {
        lemma_score_bounded(answers@, ctx.quiz.correct_answers@);
        lemma_payout_bounded(ctx.quiz.reward_pool as int, points as int, total as int);
    }
    let payout = match compute_payout(ctx.quiz.reward_pool, points, total) {
        Ok(p) => p,
        Err(e) => {
            return Err(e);
        },
    };
    if ctx.quiz.participants == u64::MAX {
        return Err(ErrorCode::ArithmeticOverflow);
    }
    let (pool, balance) = match move_funds(ctx.quiz.reward_pool, ctx.participant_balance, payout) {
        Ok(balances) => balances,
        Err(ErrorCode::InsufficientFunds) => {
            return Err(ErrorCode::InsufficientEscrowFunds);
        },
        Err(e) => {
            return Err(e);
        },
    };
    ctx.quiz.reward_pool = pool;
    ctx.participant_balance = balance;
    ctx.quiz.participants = ctx.quiz.participants + 1;
    if pool == 0 {
        ctx.quiz.is_active = false;
    }
    Ok(())
}

} // verus!
