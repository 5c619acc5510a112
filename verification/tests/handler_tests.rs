use solana_quiz::dispatcher::should_commit;
use solana_quiz::handler::{
    begin_handle, on_issuance_reply, on_ledger_reply, on_publish_reply, on_registry_reply,
    Disposition, HandlerAction, HandlerPhase, LedgerReply, TransferReply,
};
use solana_quiz::ledger::{apply_batch, build_batch, LedgerOp};
use solana_quiz::models::SolanaQuizReward;
use solana_quiz::streak::QuizUserData;

const WALLET: &str = "FzCptggk4znyovWcedjDD75E8ZXSJNWxiBfn1WDJ6FQ5";

fn reward() -> SolanaQuizReward {
    SolanaQuizReward {
        user_id: 42,
        user_wallet: WALLET.to_string(),
        quiz_id: 7,
        total_questions: 5,
        correct_answers: 4,
        earned_tokens: 4,
        streak_days: 7,
    }
}

fn confirmed_state(streak: u8) -> QuizUserData {
    QuizUserData {
        user_wallet: WALLET.to_string(),
        last_quiz_day: 101,
        streak,
        total_quizzes: 11,
        total_questions: 55,
        correct_answers: 44,
        earned_tokens: 13,
    }
}

#[test]
fn malformed_payload_is_dropped_terminally() {
    let (phase, action) = begin_handle(None, true, 7);
    assert!(matches!(
        phase,
        HandlerPhase::Done { disposition: Disposition::DroppedMalformed }
    ));
    assert!(action.is_none());
    assert!(should_commit(Disposition::DroppedMalformed));
}

#[test]
fn invalid_wallet_is_dropped_terminally() {
    let mut ev = reward();
    ev.user_wallet = "not-a-wallet".to_string();
    let (phase, action) = begin_handle(Some(ev), true, 7);
    assert!(matches!(
        phase,
        HandlerPhase::Done { disposition: Disposition::DroppedInvalidAddress }
    ));
    assert!(action.is_none());

    // Valid base58 text that decodes to fewer than 32 bytes is no wallet
    // either.
    let mut ev = reward();
    ev.user_wallet = "abc".to_string();
    let (phase, _) = begin_handle(Some(ev), false, 7);
    assert!(matches!(
        phase,
        HandlerPhase::Done { disposition: Disposition::DroppedInvalidAddress }
    ));
}

#[test]
fn on_chain_path_submits_the_canonical_batch() {
    // The configured goal (10) rides in the batch, not the event's own
    // streak-days value (7).
    let (phase, action) = begin_handle(Some(reward()), true, 10);
    assert!(matches!(phase, HandlerPhase::AwaitingLedger { .. }));
    let batch = match action {
        Some(HandlerAction::SubmitBatch { batch }) => batch,
        other => panic!("expected a batch submission, got {:?}", other),
    };
    assert_eq!(batch.ops.len(), 3);
    assert_eq!(
        batch.ops[0],
        LedgerOp::CreateStateIfAbsent { user_wallet: WALLET.to_string() }
    );
    assert_eq!(
        batch.ops[1],
        LedgerOp::ApplyTransition {
            user_wallet: WALLET.to_string(),
            total_questions: 5,
            correct_answers: 4,
            earned_tokens: 4,
            streak_days: 10,
        }
    );
    assert_eq!(
        batch.ops[2],
        LedgerOp::TransferAsset { recipient_wallet: WALLET.to_string(), amount: 4 }
    );
}

#[test]
fn off_chain_path_transfers_directly() {
    let (phase, action) = begin_handle(Some(reward()), false, 7);
    assert!(matches!(phase, HandlerPhase::AwaitingRegistry { .. }));
    assert!(matches!(
        action,
        Some(HandlerAction::TransferOffChain { recipient_wallet, amount })
            if recipient_wallet == WALLET && amount == 4
    ));
}

#[test]
fn confirmation_is_published_exactly_on_ledger_success() {
    // Success: the confirmed streak becomes authoritative and a confirmation
    // goes out under the user's key.
    let (phase, action) = on_ledger_reply(reward(), LedgerReply::Confirmed {
        state: confirmed_state(7),
        confirmation_id: "5ivQ".to_string(),
    });
    assert!(matches!(
        phase,
        HandlerPhase::AwaitingPublish { authoritative_streak: 7, .. }
    ));
    match action {
        Some(HandlerAction::Publish { key, confirmation }) => {
            assert_eq!(key, "user_42");
            assert_eq!(confirmation.user_id, 42);
            assert_eq!(confirmation.quiz_id, 7);
        }
        other => panic!("expected a publish action, got {:?}", other),
    }

    // No success, no confirmation.
    let (_, action) = on_ledger_reply(reward(), LedgerReply::Unavailable);
    assert!(action.is_none());
    let (_, action) = on_ledger_reply(reward(), LedgerReply::Rejected);
    assert!(action.is_none());
}

#[test]
fn confirmation_is_published_exactly_on_registry_success() {
    let (phase, action) = on_registry_reply(
        reward(),
        TransferReply::Confirmed { confirmation_id: "3atw".to_string() },
    );
    // Off-chain, the event's own streak-days value is authoritative.
    assert!(matches!(
        phase,
        HandlerPhase::AwaitingPublish { authoritative_streak: 7, .. }
    ));
    assert!(matches!(action, Some(HandlerAction::Publish { .. })));

    let (phase, action) = on_registry_reply(reward(), TransferReply::Failed);
    assert!(matches!(phase, HandlerPhase::Done { disposition: Disposition::Retry }));
    assert!(action.is_none());
}

#[test]
fn ledger_timeout_asks_for_redelivery_and_blocks_the_commit() {
    // Scenario: the ledger times out on submit.
    let (phase, action) = on_ledger_reply(reward(), LedgerReply::Unavailable);
    assert!(matches!(phase, HandlerPhase::Done { disposition: Disposition::Retry }));
    assert!(action.is_none());
    assert!(!should_commit(Disposition::Retry));

    // Redelivery: the ledger applies the batch once; the same batch offered
    // again on the same day is rejected and the record is not
    // double-credited.
    let batch = build_batch(&WALLET.to_string(), 5, 4, 4, 7);
    let first = apply_batch(None, &batch, 100);
    let (state, _) = first.unwrap();
    assert_eq!(state.total_quizzes, 1);
    assert_eq!(state.earned_tokens, 4);
    let second = apply_batch(Some(state.clone()), &batch, 100);
    let (kept, _) = second.unwrap_err();
    assert_eq!(kept, Some(state));
}

#[test]
fn ledger_rejection_is_terminal() {
    let (phase, _) = on_ledger_reply(reward(), LedgerReply::Rejected);
    assert!(matches!(
        phase,
        HandlerPhase::Done { disposition: Disposition::DroppedRejected }
    ));
    assert!(should_commit(Disposition::DroppedRejected));
}

#[test]
fn collectible_is_requested_exactly_at_the_goal() {
    // Scenario: streak 7 with goal 7 triggers one issuance.
    let (phase, action) = on_publish_reply(reward(), 7, 7, true);
    assert!(matches!(phase, HandlerPhase::AwaitingIssuance { .. }));
    assert!(matches!(
        action,
        Some(HandlerAction::IssueCollectible { recipient_wallet }) if recipient_wallet == WALLET
    ));

    // Scenario: streak 1 with goal 7 does not.
    let (phase, action) = on_publish_reply(reward(), 1, 7, true);
    assert!(matches!(phase, HandlerPhase::Done { disposition: Disposition::Completed }));
    assert!(action.is_none());
}

#[test]
fn failed_publish_asks_for_redelivery() {
    let (phase, action) = on_publish_reply(reward(), 7, 7, false);
    assert!(matches!(phase, HandlerPhase::Done { disposition: Disposition::Retry }));
    assert!(action.is_none());
}

#[test]
fn issuance_outcome_never_unwinds_the_reward() {
    let (phase, action) = on_issuance_reply(reward(), true);
    assert!(matches!(phase, HandlerPhase::Done { disposition: Disposition::Completed }));
    assert!(action.is_none());
    let (phase, action) = on_issuance_reply(reward(), false);
    assert!(matches!(phase, HandlerPhase::Done { disposition: Disposition::Completed }));
    assert!(action.is_none());
}

#[test]
fn off_chain_session_runs_transfer_publish_issue_in_order() {
    // One full session: transfer, then the confirmation, then the
    // collectible, each step fed the success of the one before it.
    let (phase, action) = begin_handle(Some(reward()), false, 7);
    let reward_in_flight = match phase {
        HandlerPhase::AwaitingRegistry { reward } => reward,
        other => panic!("expected the registry phase, got {:?}", other),
    };
    assert!(matches!(action, Some(HandlerAction::TransferOffChain { .. })));

    let (phase, action) = on_registry_reply(
        reward_in_flight,
        TransferReply::Confirmed { confirmation_id: "3atw".to_string() },
    );
    let (reward_in_flight, streak) = match phase {
        HandlerPhase::AwaitingPublish { reward, authoritative_streak } => {
            (reward, authoritative_streak)
        }
        other => panic!("expected the publish phase, got {:?}", other),
    };
    assert!(matches!(action, Some(HandlerAction::Publish { .. })));
    assert_eq!(streak, 7);

    let (phase, action) = on_publish_reply(reward_in_flight, streak, 7, true);
    let reward_in_flight = match phase {
        HandlerPhase::AwaitingIssuance { reward } => reward,
        other => panic!("expected the issuance phase, got {:?}", other),
    };
    assert!(matches!(action, Some(HandlerAction::IssueCollectible { .. })));

    let (phase, action) = on_issuance_reply(reward_in_flight, true);
    assert!(matches!(phase, HandlerPhase::Done { disposition: Disposition::Completed }));
    assert!(action.is_none());
    assert!(should_commit(Disposition::Completed));
}
