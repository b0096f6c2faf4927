use vstd::prelude::*;

verus! {

/// Every way in which an operation on a contest can fail. A failed operation
/// changes nothing.
#[derive(Clone, Copy, Debug, PartialEq, Eq, Structural)]
pub enum ErrorCode {
    /// The contest no longer accepts submissions.
    QuizInactive,
    /// The number of answers differs from the number of questions.
    InvalidAnswerCount,
    /// The escrow balance cannot cover a payout.
    InsufficientEscrowFunds,
    /// The creator's balance cannot cover the reward pool.
    InsufficientFunds,
    /// Questions, option lists and correct answers differ in number.
    SizeMismatch,
    /// A counter or a balance would leave the range of `u64`.
    ArithmeticOverflow,
    /// A contest record already exists where a new one was to be created.
    AccountAlreadyInitialized,
}

impl ErrorCode {
    /// The message shown to users for this error.
    pub fn msg(&self) -> (r: &'static str)
        ensures
            r@ == error_message(*self),
    {
        match self {
            ErrorCode::QuizInactive => "Quiz is not active",
            ErrorCode::InvalidAnswerCount => "Invalid number of answers",
            ErrorCode::InsufficientEscrowFunds => "Insufficient funds in the quiz escrow",
            ErrorCode::InsufficientFunds => "Insufficient funds to fund the reward pool",
            ErrorCode::SizeMismatch => "Questions, options and correct answers differ in number",
            ErrorCode::ArithmeticOverflow => "Arithmetic overflow",
            ErrorCode::AccountAlreadyInitialized => "Quiz account already initialized",
        }
    }
}

/// The message of each error, as text.
pub open spec fn error_message(e: ErrorCode) -> Seq<char> {
    match e {
        ErrorCode::QuizInactive => "Quiz is not active"@,
        ErrorCode::InvalidAnswerCount => "Invalid number of answers"@,
        ErrorCode::InsufficientEscrowFunds => "Insufficient funds in the quiz escrow"@,
        ErrorCode::InsufficientFunds => "Insufficient funds to fund the reward pool"@,
        ErrorCode::SizeMismatch => "Questions, options and correct answers differ in number"@,
        ErrorCode::ArithmeticOverflow => "Arithmetic overflow"@,
        ErrorCode::AccountAlreadyInitialized => "Quiz account already initialized"@,
    }
}

} // verus!
