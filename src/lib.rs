//! An escrow-backed trivia contest: a creator funds a reward pool for a fixed
//! set of questions, and each participant is paid a share of the remaining
//! pool proportional to their score until the pool runs dry.

pub mod error;
pub mod laws;
pub mod payout;
pub mod quiz;

pub use error::ErrorCode;
pub use payout::{compute_payout, move_funds, score};
pub use quiz::{initialize_quiz, submit_answers, AccountKey, InitializeQuiz, Quiz, SubmitAnswers};
