//! Asset-registry plans: the unit scaling and the ordered operations behind
//! direct transfers, minting and funding. The registry performs each plan
//! over the wire; the amounts and the order of operations are decided and
//! verified here.

use vstd::prelude::*;

verus! {

/// Lamports in one whole unit of the native token.
pub const LAMPORTS_PER_SOL: u64 = 1_000_000_000;

/// Decimals of the reward token's mint.
pub const REWARD_TOKEN_DECIMALS: u8 = 9;

/// Ten to the `e`.
pub open spec fn pow10(e: nat) -> nat
    decreases e,
{
    if e == 0 {
        1
    } else {
        10 * pow10((e - 1) as nat)
    }
}

/// Ten to anything is at least one.
pub proof fn lemma_pow10_pos(e: nat)
    ensures
        pow10(e) >= 1,
    decreases e,
{
    if e > 0 {
        lemma_pow10_pos((e - 1) as nat)
    }
}

/// `pow10` grows with its exponent.
pub proof fn lemma_pow10_le(a: nat, b: nat)
    requires
        a <= b,
    ensures
        pow10(a) <= pow10(b),
    decreases b,
{
    if a < b {
        lemma_pow10_le(a, (b - 1) as nat);
        lemma_pow10_pos((b - 1) as nat);
    }
}

/// Ten to the `e`, for exponents a `u64` can hold.
pub fn pow10_u64(e: u8) -> (r: u64)
    requires
        e <= 19,
    ensures
        r == pow10(e as nat),
{
    let mut r: u64 = 1;
    let mut i: u8 = 0;
    while i < e
        invariant
            i <= e <= 19,
            r == pow10(i as nat),
        decreases e - i,
    {
        proof {
            lemma_pow10_le((i + 1) as nat, 19nat);
            assert(pow10(19) == 10_000_000_000_000_000_000) by {
                reveal_with_fuel(pow10, 21);
            }
        }
        r = r * 10;
        i = i + 1;
    }
    r
}

/// An amount in whole tokens, scaled to the mint's base units.
pub fn scale_to_base_units(amount: u64, decimals: u8) -> (r: u64)
    requires
        decimals <= 19,
        amount * pow10(decimals as nat) <= u64::MAX,
    ensures
        r == amount * pow10(decimals as nat),
{
    let p = pow10_u64(decimals);
    amount * p
}

/// An amount in whole native tokens, as lamports.
pub fn sol_to_lamports(sol_amount: u64) -> (r: u64)
    requires
        sol_amount * LAMPORTS_PER_SOL <= u64::MAX,
    ensures
        r == sol_amount * LAMPORTS_PER_SOL,
{
    sol_amount * LAMPORTS_PER_SOL
}

/// The wallet an airdrop goes to: the requested one, or the authority's own
/// when none was named.
pub fn airdrop_target(requested: Option<String>, authority_wallet: String) -> (r: String)
    ensures
        requested matches Some(w) ==> r == w,
        requested is None ==> r == authority_wallet,
{
    match requested {
        Some(w) => w,
        None => authority_wallet,
    }
}

/// One operation the asset registry can perform.
#[derive(Clone, Debug, PartialEq, Eq)]
pub enum AssetOp {
    /// Create the account that will hold a new mint, funded with rent.
    CreateAccount { lamports: u64, space: u64 },
    /// Initialize the new account as a mint with this many decimals.
    InitializeMint { decimals: u8 },
    /// Ensure this wallet has a holding account for the mint.
    CreateHoldingAccount { owner_wallet: String },
    /// Mint this many base units to the authority's holding account.
    MintTo { base_units: u64, decimals: u8 },
    /// Move this many base units to this wallet's holding account.
    TransferChecked { recipient_wallet: String, base_units: u64, decimals: u8 },
}

/// The plan that creates the reward token's mint: create the account sized
/// and funded as the registry reported, then initialize it with the reward
/// token's decimals.
pub fn create_mint_plan(rent_lamports: u64, account_space: u64) -> (plan: Vec<AssetOp>)
    ensures
        plan@.len() == 2,
        plan@[0] == (AssetOp::CreateAccount { lamports: rent_lamports, space: account_space }),
        plan@[1] == (AssetOp::InitializeMint { decimals: REWARD_TOKEN_DECIMALS }),
{
    let mut plan: Vec<AssetOp> = Vec::new();
    plan.push(AssetOp::CreateAccount { lamports: rent_lamports, space: account_space });
    plan.push(AssetOp::InitializeMint { decimals: REWARD_TOKEN_DECIMALS });
    plan
}

/// The plan that mints `amount` whole tokens to the authority, scaled by the
/// mint's decimals as the registry reported them.
pub fn mint_tokens_plan(amount: u64, decimals: u8) -> (plan: Vec<AssetOp>)
    requires
        decimals <= 19,
        amount * pow10(decimals as nat) <= u64::MAX,
    ensures
        plan@.len() == 1,
        plan@[0] == (AssetOp::MintTo {
            base_units: (amount * pow10(decimals as nat)) as u64,
            decimals,
        }),
{
    let base_units = scale_to_base_units(amount, decimals);
    let mut plan: Vec<AssetOp> = Vec::new();
    plan.push(AssetOp::MintTo { base_units, decimals });
    plan
}

/// The plan that sends `amount` whole tokens to a wallet: create the
/// recipient's holding account first exactly when the registry found none,
/// then move the scaled base units with a decimals check.
pub fn send_tokens_plan(
    recipient_wallet: &String,
    amount: u64,
    decimals: u8,
    recipient_account_exists: bool,
) -> (plan: Vec<AssetOp>)
    requires
        decimals <= 19,
        amount * pow10(decimals as nat) <= u64::MAX,
    ensures
        recipient_account_exists ==> plan@.len() == 1,
        !recipient_account_exists ==> plan@.len() == 2 && (plan@[0] matches
            AssetOp::CreateHoldingAccount { owner_wallet } && owner_wallet == *recipient_wallet),
        plan@.last() matches AssetOp::TransferChecked {
            recipient_wallet: w,
            base_units,
            decimals: d,
        } && w == *recipient_wallet && base_units == amount * pow10(decimals as nat) && d
            == decimals,
{
    let base_units = scale_to_base_units(amount, decimals);
    let mut plan: Vec<AssetOp> = Vec::new();
    if !recipient_account_exists {
        plan.push(AssetOp::CreateHoldingAccount { owner_wallet: recipient_wallet.clone() });
    }
    plan.push(AssetOp::TransferChecked {
        recipient_wallet: recipient_wallet.clone(),
        base_units,
        decimals,
    });
    plan
}

} // verus!
