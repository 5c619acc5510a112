use solana_quiz::assets::{
    airdrop_target, create_mint_plan, mint_tokens_plan, scale_to_base_units, send_tokens_plan,
    sol_to_lamports, AssetOp,
};
use solana_quiz::bus::{create_kafka_consumer_config, create_kafka_producer_config};
use solana_quiz::collectible::{issuance_outcome, mint_nft_plan, CollectibleOp, IssuanceOutcome};
use solana_quiz::digits::u64_to_dec;
use solana_quiz::dispatcher::{dispatch_message, route_topic, DispatchDecision, TopicHandler};
use solana_quiz::models::{
    applied_topic, confirmation_of, message_key, rewards_topic, SolanaQuizReward,
};

const WALLET: &str = "FzCptggk4znyovWcedjDD75E8ZXSJNWxiBfn1WDJ6FQ5";

#[test]
fn decimal_rendering_is_exact() {
    assert_eq!(u64_to_dec(0), "0");
    assert_eq!(u64_to_dec(7), "7");
    assert_eq!(u64_to_dec(42), "42");
    assert_eq!(u64_to_dec(10_000), "10000");
    assert_eq!(u64_to_dec(18_446_744_073_709_551_615), "18446744073709551615");
}

#[test]
fn confirmation_carries_user_and_quiz() {
    let ev = SolanaQuizReward {
        user_id: 42,
        user_wallet: WALLET.to_string(),
        quiz_id: 7,
        total_questions: 5,
        correct_answers: 4,
        earned_tokens: 4,
        streak_days: 7,
    };
    let c = confirmation_of(&ev);
    assert_eq!(c.user_id, 42);
    assert_eq!(c.quiz_id, 7);
    assert_eq!(message_key(42), "user_42");
    assert_eq!(message_key(0), "user_0");
}

#[test]
fn topics_are_fixed() {
    assert_eq!(rewards_topic(), "solana-quiz-rewards");
    assert_eq!(applied_topic(), "solana-quiz-reward-applied");
}

#[test]
fn routing_knows_exactly_the_rewards_topic() {
    assert_eq!(route_topic("solana-quiz-rewards"), Some(TopicHandler::QuizReward));
    assert_eq!(route_topic("solana-quiz-reward-applied"), None);
    assert_eq!(route_topic(""), None);
}

#[test]
fn dispatch_skips_what_cannot_be_handled() {
    assert_eq!(
        dispatch_message("solana-quiz-rewards", true),
        DispatchDecision::Deliver { handler: TopicHandler::QuizReward }
    );
    assert_eq!(dispatch_message("unrelated-topic", true), DispatchDecision::SkipUnknownTopic);
    assert_eq!(dispatch_message("solana-quiz-rewards", false), DispatchDecision::SkipUndecodable);
}

#[test]
fn producer_settings_are_exact() {
    let s = create_kafka_producer_config(&"9092".to_string());
    assert_eq!(
        s,
        vec![
            ("bootstrap.servers".to_string(), "kafka1:9092".to_string()),
            ("message.timeout.ms".to_string(), "5000".to_string()),
        ]
    );
}

#[test]
fn consumer_settings_commit_manually() {
    let s = create_kafka_consumer_config(&"9092".to_string());
    assert_eq!(
        s,
        vec![
            ("bootstrap.servers".to_string(), "kafka1:9092".to_string()),
            ("group.id".to_string(), "solana_quiz_group".to_string()),
            ("enable.auto.commit".to_string(), "false".to_string()),
        ]
    );
}

#[test]
fn scaling_applies_the_mint_decimals() {
    assert_eq!(scale_to_base_units(5, 9), 5_000_000_000);
    assert_eq!(scale_to_base_units(5, 0), 5);
    assert_eq!(scale_to_base_units(0, 19), 0);
    assert_eq!(sol_to_lamports(2), 2_000_000_000);
}

#[test]
fn airdrop_goes_to_the_named_wallet_or_the_authority() {
    assert_eq!(
        airdrop_target(Some("w1".to_string()), "authority".to_string()),
        "w1".to_string()
    );
    assert_eq!(airdrop_target(None, "authority".to_string()), "authority".to_string());
}

#[test]
fn mint_creation_plan_is_exact() {
    let plan = create_mint_plan(1_461_600, 82);
    assert_eq!(
        plan,
        vec![
            AssetOp::CreateAccount { lamports: 1_461_600, space: 82 },
            AssetOp::InitializeMint { decimals: 9 },
        ]
    );
}

#[test]
fn minting_plan_scales_the_amount() {
    let plan = mint_tokens_plan(5, 9);
    assert_eq!(plan, vec![AssetOp::MintTo { base_units: 5_000_000_000, decimals: 9 }]);
}

#[test]
fn transfer_plan_creates_the_holding_account_only_when_missing() {
    let with_account = send_tokens_plan(&WALLET.to_string(), 4, 9, true);
    assert_eq!(
        with_account,
        vec![AssetOp::TransferChecked {
            recipient_wallet: WALLET.to_string(),
            base_units: 4_000_000_000,
            decimals: 9,
        }]
    );
    let without_account = send_tokens_plan(&WALLET.to_string(), 4, 9, false);
    assert_eq!(
        without_account,
        vec![
            AssetOp::CreateHoldingAccount { owner_wallet: WALLET.to_string() },
            AssetOp::TransferChecked {
                recipient_wallet: WALLET.to_string(),
                base_units: 4_000_000_000,
                decimals: 9,
            },
        ]
    );
}

#[test]
fn issuance_plan_is_the_fixed_four_step_workflow() {
    let plan = mint_nft_plan(
        &WALLET.to_string(),
        "Quiz Trophy".to_string(),
        "QZT".to_string(),
        "https://example.org/meta.json".to_string(),
    );
    assert_eq!(
        plan,
        vec![
            CollectibleOp::CreateAsset { decimals: 0 },
            CollectibleOp::CreateHoldingAccount { owner_wallet: WALLET.to_string() },
            CollectibleOp::IssueUnit { amount: 1 },
            CollectibleOp::AttachDescriptor {
                name: "Quiz Trophy".to_string(),
                symbol: "QZT".to_string(),
                uri: "https://example.org/meta.json".to_string(),
            },
        ]
    );
}

#[test]
fn partial_issuance_reports_the_failed_step() {
    assert_eq!(issuance_outcome(4), IssuanceOutcome::Issued);
    assert_eq!(issuance_outcome(0), IssuanceOutcome::FailedAtStep { index: 0 });
    assert_eq!(issuance_outcome(2), IssuanceOutcome::FailedAtStep { index: 2 });
}
