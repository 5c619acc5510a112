//! Atomic operation batches against the ledger: the fixed three-operation
//! batch a reward submission consists of, and the ledger-side execution of
//! such a batch, all applied or none.

use vstd::prelude::*;
use crate::streak::{spec_apply, update_quiz_results, initialize, QuizUserData};

verus! {

/// One named ledger operation.
#[derive(Clone, Debug, PartialEq, Eq)]
pub enum LedgerOp {
    /// Create the user's eligibility record if it does not exist yet.
    CreateStateIfAbsent { user_wallet: String },
    /// Advance the record by one completed quiz.
    ApplyTransition {
        user_wallet: String,
        total_questions: u64,
        correct_answers: u64,
        earned_tokens: u64,
        streak_days: u8,
    },
    /// Move earned reward units from the funding account to the user's
    /// holding account, creating the holding account if absent.
    TransferAsset { recipient_wallet: String, amount: u64 },
}

/// An ordered sequence of ledger operations that must all apply or none.
#[derive(Clone, Debug, PartialEq, Eq)]
pub struct AtomicOperationBatch {
    pub ops: Vec<LedgerOp>,
}

/// Why the ledger refused a batch.
#[derive(Clone, Copy, Debug, PartialEq, Eq, Structural)]
pub enum LedgerError {
    /// Some operation failed server-side; the whole batch was rolled back.
    Rejected,
}

/// The canonical reward batch for one event: create-if-absent, then the
/// transition, then the asset transfer, in that order.
pub open spec fn is_reward_batch(
    b: AtomicOperationBatch,
    user_wallet: String,
    total_questions: u64,
    correct_answers: u64,
    earned_tokens: u64,
    streak_days: u8,
) -> bool {
    &&& b.ops@.len() == 3
    &&& b.ops@[0] matches LedgerOp::CreateStateIfAbsent { user_wallet: w } && w == user_wallet
    &&& b.ops@[1] matches LedgerOp::ApplyTransition {
        user_wallet: w,
        total_questions: tq,
        correct_answers: ca,
        earned_tokens: et,
        streak_days: sd,
    } && w == user_wallet && tq == total_questions && ca == correct_answers && et == earned_tokens
        && sd == streak_days
    &&& b.ops@[2] matches LedgerOp::TransferAsset { recipient_wallet: w, amount: a } && w
        == user_wallet && a == earned_tokens
}

/// Build the batch for one reward event: always the same three operations,
/// in order, all about the same user.
pub fn build_batch(
    user_wallet: &String,
    total_questions: u64,
    correct_answers: u64,
    earned_tokens: u64,
    streak_days: u8,
) -> (b: AtomicOperationBatch)
    ensures
        is_reward_batch(b, *user_wallet, total_questions, correct_answers, earned_tokens,
            streak_days),
{
    let mut ops: Vec<LedgerOp> = Vec::new();
    ops.push(LedgerOp::CreateStateIfAbsent { user_wallet: user_wallet.clone() });
    ops.push(LedgerOp::ApplyTransition {
        user_wallet: user_wallet.clone(),
        total_questions,
        correct_answers,
        earned_tokens,
        streak_days,
    });
    ops.push(LedgerOp::TransferAsset {
        recipient_wallet: user_wallet.clone(),
        amount: earned_tokens,
    });
    AtomicOperationBatch { ops }
}

/// The shape every reward batch has: its three operations in order,
/// whatever they carry.
pub open spec fn reward_batch_shape(b: AtomicOperationBatch) -> bool {
    &&& b.ops@.len() == 3
    &&& b.ops@[0] is CreateStateIfAbsent
    &&& b.ops@[1] is ApplyTransition
    &&& b.ops@[2] is TransferAsset
}

/// The record a batch starts from: the stored one, or a fresh record for
/// the batch's user where none is stored.
pub open spec fn batch_base(state: Option<QuizUserData>, b: AtomicOperationBatch) -> QuizUserData {
    if state is Some {
        state->0
    } else {
        crate::streak::fresh_record(b.ops@[0]->CreateStateIfAbsent_user_wallet)
    }
}

/// Execute a reward batch against the stored record of its user, as the
/// ledger does: create-if-absent, then the transition, then the transfer.
/// Either every operation applies and the new record is returned together
/// with the goal flag, or the batch is rejected and the stored record is
/// untouched. A repeated day is the one semantic rejection.
pub fn apply_batch(
    state: Option<QuizUserData>,
    batch: &AtomicOperationBatch,
    current_day: u64,
) -> (r: Result<(QuizUserData, bool), (Option<QuizUserData>, LedgerError)>)
    requires
        reward_batch_shape(*batch),
        ({
            let s = batch_base(state, *batch);
            let op = batch.ops@[1];
            &&& (s.last_quiz_day != current_day ==> {
                &&& s.total_quizzes + 1 <= u64::MAX
                &&& s.total_questions + op->ApplyTransition_total_questions <= u64::MAX
                &&& s.correct_answers + op->ApplyTransition_correct_answers <= u64::MAX
                &&& s.earned_tokens + op->ApplyTransition_earned_tokens <= u64::MAX
                &&& s.last_quiz_day < u64::MAX
            })
            &&& (s.last_quiz_day + 1 == current_day ==> (s.streak
                == op->ApplyTransition_streak_days || s.streak < u8::MAX))
        }),
    ensures
        ({
            let s = batch_base(state, *batch);
            let op = batch.ops@[1];
            let s2 = spec_apply(s, op->ApplyTransition_total_questions,
                op->ApplyTransition_correct_answers, op->ApplyTransition_earned_tokens,
                op->ApplyTransition_streak_days, current_day);
            &&& (r is Ok <==> s.last_quiz_day != current_day)
            &&& (r matches Ok((out, goal_reached)) ==> out == s2 && goal_reached == (s2.streak
                == op->ApplyTransition_streak_days))
            &&& (r matches Err((kept, e)) ==> kept == state && e == LedgerError::Rejected)
        }),
{
    let user_wallet = match &batch.ops[0] {
        LedgerOp::CreateStateIfAbsent { user_wallet } => user_wallet.clone(),
        _ => vstd::pervasive::unreached(),
    };
    let (total_questions, correct_answers, earned_tokens, streak_days) = match &batch.ops[1] {
        LedgerOp::ApplyTransition {
            user_wallet: _,
            total_questions,
            correct_answers,
            earned_tokens,
            streak_days,
        } => (*total_questions, *correct_answers, *earned_tokens, *streak_days),
        _ => vstd::pervasive::unreached(),
    };
    let had_state = state.is_some();
    let mut record = initialize(state, user_wallet);
    match update_quiz_results(
        &mut record,
        total_questions,
        correct_answers,
        earned_tokens,
        streak_days,
        current_day,
    ) {
        Ok(goal_reached) => Ok((record, goal_reached)),
        Err(_) => Err((
            if had_state {
                Some(record)
            } else {
                None
            },
            LedgerError::Rejected,
        )),
    }
}

} // verus!
