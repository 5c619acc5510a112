//! The per-event business logic, written as a state machine: each step takes
//! what the outside world answered and decides the next phase and the next
//! action. The surrounding runtime performs the actions — submitting batches,
//! transferring assets, publishing confirmations — and feeds the outcomes
//! back in; every decision in between is made and verified here.

use vstd::prelude::*;
use crate::digits::dec_digits;
use crate::ledger::{build_batch, is_reward_batch, AtomicOperationBatch};
use crate::models::{confirmation_of, message_key, SolanaQuizReward, SolanaQuizRewardApplied};
use crate::streak::QuizUserData;
use crate::wallet::{check_wallet, wallet_ok};

verus! {

/// How the handling of one message ended.
#[derive(Clone, Copy, Debug, PartialEq, Eq, Structural)]
pub enum Disposition {
    /// The reward was applied and confirmed; any collectible outcome is
    /// logged only.
    Completed,
    /// The payload did not parse; terminal, the message is dropped.
    DroppedMalformed,
    /// The wallet address cannot be a ledger key; terminal.
    DroppedInvalidAddress,
    /// The ledger refused the batch; retrying the same operation cannot
    /// succeed, so terminal.
    DroppedRejected,
    /// A transient failure; the message must be redelivered.
    Retry,
}

/// Where the handling of one message stands.
#[derive(Debug)]
pub enum HandlerPhase {
    /// An atomic batch was handed out; the ledger's reply is awaited.
    AwaitingLedger { reward: SolanaQuizReward },
    /// An off-ledger transfer was handed out; the registry's reply is
    /// awaited.
    AwaitingRegistry { reward: SolanaQuizReward },
    /// The transfer succeeded; the confirmation is being published.
    AwaitingPublish { reward: SolanaQuizReward, authoritative_streak: u8 },
    /// A collectible issuance was handed out; its outcome is awaited.
    AwaitingIssuance { reward: SolanaQuizReward },
    /// Nothing more to do.
    Done { disposition: Disposition },
}

/// What the runtime is asked to do next.
#[derive(Debug)]
pub enum HandlerAction {
    /// Submit this batch to the ledger and wait for finality.
    SubmitBatch { batch: AtomicOperationBatch },
    /// Transfer this many reward units to this wallet, off-ledger.
    TransferOffChain { recipient_wallet: String, amount: u64 },
    /// Publish this confirmation under this partition key.
    Publish { key: String, confirmation: SolanaQuizRewardApplied },
    /// Issue one collectible to this wallet.
    IssueCollectible { recipient_wallet: String },
}

/// What the ledger answered to a submitted batch.
#[derive(Debug)]
pub enum LedgerReply {
    /// The batch reached finality: the confirmed record, and the correlation
    /// identifier of the confirmed transaction.
    Confirmed { state: QuizUserData, confirmation_id: String },
    /// Transport failure or timeout; nothing is known to have applied.
    Unavailable,
    /// The ledger executed the batch and refused it; nothing applied.
    Rejected,
}

/// What the asset registry answered to an off-ledger transfer.
#[derive(Clone, Debug)]
pub enum TransferReply {
    /// The transfer went through, under this correlation identifier.
    Confirmed { confirmation_id: String },
    /// The transfer failed.
    Failed,
}

/// Start handling one message: refuse what cannot be handled, otherwise pick
/// the settlement path the deployment mode calls for.
///
/// A payload that did not parse and a wallet the ledger cannot key are both
/// terminal. On the on-chain path the canonical three-operation batch is
/// handed out, its transition keyed to `streak_goal`, the configured goal —
/// never to anything the producer supplied. On the off-chain path a direct
/// transfer of the earned units is handed out.
pub fn begin_handle(parsed: Option<SolanaQuizReward>, on_chain: bool, streak_goal: u8) -> (r: (
    HandlerPhase,
    Option<HandlerAction>,
))
    ensures
        parsed is None ==> r.0 == (HandlerPhase::Done {
            disposition: Disposition::DroppedMalformed,
        }) && r.1 is None,
        parsed matches Some(ev) ==> {
            &&& !wallet_ok(ev.user_wallet@) ==> r.0 == (HandlerPhase::Done {
                disposition: Disposition::DroppedInvalidAddress,
            }) && r.1 is None
            &&& wallet_ok(ev.user_wallet@) && on_chain ==> (r.0 matches
                HandlerPhase::AwaitingLedger { reward } && reward == ev) && (r.1 matches Some(
            HandlerAction::SubmitBatch { batch }) && is_reward_batch(batch, ev.user_wallet,
                ev.total_questions, ev.correct_answers, ev.earned_tokens, streak_goal))
            &&& wallet_ok(ev.user_wallet@) && !on_chain ==> (r.0 matches
                HandlerPhase::AwaitingRegistry { reward } && reward == ev) && (r.1 matches Some(
            HandlerAction::TransferOffChain { recipient_wallet, amount }) && recipient_wallet
                == ev.user_wallet && amount == ev.earned_tokens)
        },
{
    match parsed {
        None => (HandlerPhase::Done { disposition: Disposition::DroppedMalformed }, None),
        Some(reward) => {
            if !check_wallet(reward.user_wallet.as_str()) {
                return (
                    HandlerPhase::Done { disposition: Disposition::DroppedInvalidAddress },
                    None,
                );
            }
            if on_chain {
                let batch = build_batch(
                    &reward.user_wallet,
                    reward.total_questions,
                    reward.correct_answers,
                    reward.earned_tokens,
                    streak_goal,
                );
                (
                    HandlerPhase::AwaitingLedger { reward },
                    Some(HandlerAction::SubmitBatch { batch }),
                )
            } else {
                let recipient_wallet = reward.user_wallet.clone();
                let amount = reward.earned_tokens;
                (
                    HandlerPhase::AwaitingRegistry { reward },
                    Some(HandlerAction::TransferOffChain { recipient_wallet, amount }),
                )
            }
        },
    }
}

/// The confirmation-publishing action for `reward`: the confirmation record
/// keyed by the user's identity.
fn publish_action(reward: &SolanaQuizReward) -> (a: HandlerAction)
    ensures
        a matches HandlerAction::Publish { key, confirmation } && key@ == "user_"@ + dec_digits(
            reward.user_id as nat) && confirmation == (SolanaQuizRewardApplied {
            user_id: reward.user_id,
            quiz_id: reward.quiz_id,
        }),
{
    HandlerAction::Publish {
        key: message_key(reward.user_id),
        confirmation: confirmation_of(reward),
    }
}

/// Take the ledger's reply to the submitted batch.
///
/// A confirmation is published if and only if the ledger confirmed the
/// batch; the confirmed record's streak becomes the authoritative streak. A
/// transport failure asks for redelivery; a refusal is terminal.
pub fn on_ledger_reply(reward: SolanaQuizReward, reply: LedgerReply) -> (r: (
    HandlerPhase,
    Option<HandlerAction>,
))
    ensures
        (r.1 matches Some(a) && a is Publish) <==> reply is Confirmed,
        reply matches LedgerReply::Confirmed { state, .. } ==> (r.0 matches
            HandlerPhase::AwaitingPublish { reward: rw, authoritative_streak } && rw == reward
            && authoritative_streak == state.streak) && (r.1 matches Some(HandlerAction::Publish {
            key,
            confirmation,
        }) && key@ == "user_"@ + dec_digits(reward.user_id as nat) && confirmation == (
        SolanaQuizRewardApplied { user_id: reward.user_id, quiz_id: reward.quiz_id })),
        reply is Unavailable ==> r.0 == (HandlerPhase::Done { disposition: Disposition::Retry })
            && r.1 is None,
        reply is Rejected ==> r.0 == (HandlerPhase::Done {
            disposition: Disposition::DroppedRejected,
        }) && r.1 is None,
{
    match reply {
        LedgerReply::Confirmed { state, confirmation_id: _ } => {
            let action = publish_action(&reward);
            (
                HandlerPhase::AwaitingPublish { reward, authoritative_streak: state.streak },
                Some(action),
            )
        },
        LedgerReply::Unavailable => (HandlerPhase::Done { disposition: Disposition::Retry }, None),
        LedgerReply::Rejected => (
            HandlerPhase::Done { disposition: Disposition::DroppedRejected },
            None,
        ),
    }
}

/// Take the registry's reply to the off-ledger transfer.
///
/// A confirmation is published if and only if the transfer succeeded. On
/// this path no ledger-confirmed record exists, so the event's own
/// streak-days value becomes the authoritative streak. A failure asks for
/// redelivery.
pub fn on_registry_reply(reward: SolanaQuizReward, reply: TransferReply) -> (r: (
    HandlerPhase,
    Option<HandlerAction>,
))
    ensures
        (r.1 matches Some(a) && a is Publish) <==> reply is Confirmed,
        reply is Confirmed ==> (r.0 matches HandlerPhase::AwaitingPublish {
            reward: rw,
            authoritative_streak,
        } && rw == reward && authoritative_streak == reward.streak_days) && (r.1 matches Some(
        HandlerAction::Publish { key, confirmation }) && key@ == "user_"@ + dec_digits(
            reward.user_id as nat) && confirmation == (SolanaQuizRewardApplied {
            user_id: reward.user_id,
            quiz_id: reward.quiz_id,
        })),
        reply is Failed ==> r.0 == (HandlerPhase::Done { disposition: Disposition::Retry }) && r.1
            is None,
{
    match reply {
        TransferReply::Confirmed { confirmation_id: _ } => {
            let action = publish_action(&reward);
            let streak_days = reward.streak_days;
            (
                HandlerPhase::AwaitingPublish { reward, authoritative_streak: streak_days },
                Some(action),
            )
        },
        TransferReply::Failed => (HandlerPhase::Done { disposition: Disposition::Retry }, None),
    }
}

/// Take the outcome of publishing the confirmation.
///
/// Once the confirmation is out, a collectible issuance is requested exactly
/// when the authoritative streak equals the configured goal; otherwise the
/// message is done. A failed publish asks for redelivery.
pub fn on_publish_reply(
    reward: SolanaQuizReward,
    authoritative_streak: u8,
    goal: u8,
    published: bool,
) -> (r: (HandlerPhase, Option<HandlerAction>))
    ensures
        !published ==> r.0 == (HandlerPhase::Done { disposition: Disposition::Retry }) && r.1
            is None,
        published && authoritative_streak == goal ==> (r.0 matches HandlerPhase::AwaitingIssuance {
            reward: rw,
        } && rw == reward) && (r.1 matches Some(HandlerAction::IssueCollectible {
            recipient_wallet,
        }) && recipient_wallet == reward.user_wallet),
        published && authoritative_streak != goal ==> r.0 == (HandlerPhase::Done {
            disposition: Disposition::Completed,
        }) && r.1 is None,
{
    if !published {
        (HandlerPhase::Done { disposition: Disposition::Retry }, None)
    } else if authoritative_streak == goal {
        let recipient_wallet = reward.user_wallet.clone();
        (
            HandlerPhase::AwaitingIssuance { reward },
            Some(HandlerAction::IssueCollectible { recipient_wallet }),
        )
    } else {
        (HandlerPhase::Done { disposition: Disposition::Completed }, None)
    }
}

/// Take the outcome of the collectible issuance.
///
/// The reward application already succeeded, so the message is completed
/// whether or not the issuance went through: an issuance failure is reported
/// by the runtime, never unwound.
pub fn on_issuance_reply(reward: SolanaQuizReward, issued: bool) -> (r: (
    HandlerPhase,
    Option<HandlerAction>,
))
    ensures
        r.0 == (HandlerPhase::Done { disposition: Disposition::Completed }),
        r.1 is None,
{
    let _ = reward;
    let _ = issued;
    (HandlerPhase::Done { disposition: Disposition::Completed }, None)
}

} // verus!
