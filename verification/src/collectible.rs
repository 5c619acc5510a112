//! Collectible issuance: the fixed four-step workflow that gives a user one
//! non-fungible unit with an attached descriptor. Each step is a separate
//! ledger submission because it needs the identity confirmed by the step
//! before it, so the workflow is a plan of ordered steps, not one atomic
//! batch; a failed step is terminal and earlier steps are not rolled back.

use vstd::prelude::*;

verus! {

/// One step of the issuance workflow.
#[derive(Clone, Debug, PartialEq, Eq)]
pub enum CollectibleOp {
    /// Create the asset: a fresh mint with no fractional units.
    CreateAsset { decimals: u8 },
    /// Ensure the recipient has a holding account for the new asset.
    CreateHoldingAccount { owner_wallet: String },
    /// Issue exactly one unit into that holding account.
    IssueUnit { amount: u64 },
    /// Attach the descriptor record: name, symbol and metadata reference.
    AttachDescriptor { name: String, symbol: String, uri: String },
}

/// The issuance plan for one recipient: create the asset, ensure the holding
/// account, issue a single unit, attach the descriptor — in that order and
/// nothing else.
pub fn mint_nft_plan(recipient_wallet: &String, name: String, symbol: String, uri: String) -> (plan:
    Vec<CollectibleOp>)
    ensures
        plan@.len() == 4,
        plan@[0] == (CollectibleOp::CreateAsset { decimals: 0 }),
        plan@[1] matches CollectibleOp::CreateHoldingAccount { owner_wallet } && owner_wallet
            == *recipient_wallet,
        plan@[2] == (CollectibleOp::IssueUnit { amount: 1 }),
        plan@[3] == (CollectibleOp::AttachDescriptor { name, symbol, uri }),
{
    let mut plan: Vec<CollectibleOp> = Vec::new();
    plan.push(CollectibleOp::CreateAsset { decimals: 0 });
    plan.push(CollectibleOp::CreateHoldingAccount { owner_wallet: recipient_wallet.clone() });
    plan.push(CollectibleOp::IssueUnit { amount: 1 });
    plan.push(CollectibleOp::AttachDescriptor { name, symbol, uri });
    plan
}

/// How an issuance attempt ended, given how many of its steps succeeded.
/// Partial progress is an accepted, observable state: it is reported, never
/// rolled back and never retried by this workflow.
#[derive(Clone, Copy, Debug, PartialEq, Eq, Structural)]
pub enum IssuanceOutcome {
    /// All four steps succeeded; the collectible exists and is described.
    Issued,
    /// The step with this index failed; the steps before it stand.
    FailedAtStep { index: usize },
}

/// Judge an attempt that completed `steps_done` of the four steps before
/// stopping.
pub fn issuance_outcome(steps_done: usize) -> (r: IssuanceOutcome)
    requires
        steps_done <= 4,
    ensures
        steps_done == 4 ==> r == IssuanceOutcome::Issued,
        steps_done < 4 ==> r == (IssuanceOutcome::FailedAtStep { index: steps_done }),
{
    if steps_done == 4 {
        IssuanceOutcome::Issued
    } else {
        IssuanceOutcome::FailedAtStep { index: steps_done }
    }
}

} // verus!
