//! Message payloads carried over the event stream, and the values derived
//! from them: the confirmation record and the per-user partition key.

use vstd::prelude::*;
use vstd::string::StringExecFns;
use crate::digits::dec_digits;

verus! {

/// A reward earned by a user for completing a quiz, as the producer reports
/// it.
#[derive(Clone, Debug, PartialEq, Eq)]
pub struct SolanaQuizReward {
    pub user_id: u64,
    pub user_wallet: String,
    pub quiz_id: u64,
    pub total_questions: u64,
    pub correct_answers: u64,
    pub earned_tokens: u64,
    pub streak_days: u8,
}

/// A successfully applied reward, sent back to confirm that the reward for a
/// given user and quiz has been processed.
#[derive(Clone, Debug, PartialEq, Eq)]
pub struct SolanaQuizRewardApplied {
    pub user_id: u64,
    pub quiz_id: u64,
}

/// The topic that reward events arrive on.
pub fn rewards_topic() -> (t: &'static str)
    ensures
        t@ == "solana-quiz-rewards"@,
{
    "solana-quiz-rewards"
}

/// The topic that confirmations are published to.
pub fn applied_topic() -> (t: &'static str)
    ensures
        t@ == "solana-quiz-reward-applied"@,
{
    "solana-quiz-reward-applied"
}

/// The confirmation record for a reward: the same user and quiz, nothing
/// else.
pub fn confirmation_of(reward: &SolanaQuizReward) -> (c: SolanaQuizRewardApplied)
    ensures
        c.user_id == reward.user_id,
        c.quiz_id == reward.quiz_id,
{
    SolanaQuizRewardApplied { user_id: reward.user_id, quiz_id: reward.quiz_id }
}

/// The partition key of a confirmation: `user_` followed by the user's
/// decimal id, so that confirmations for one user keep their order.
pub fn message_key(user_id: u64) -> (k: String)
    ensures
        k@ == "user_"@ + dec_digits(user_id as nat),
{
    let mut k = "user_".to_owned();
    k.append(crate::digits::u64_to_dec(user_id).as_str());
    k
}

} // verus!
