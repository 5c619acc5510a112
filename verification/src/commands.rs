//! The command surface of the maintenance CLI, as plain data. Argument
//! parsing lives with the binary; what a parsed invocation means is this
//! one closed set of commands.

use vstd::prelude::*;

verus! {

/// One parsed CLI invocation.
#[derive(Debug)]
pub struct Cli {
    pub command: Commands,
}

/// The commands the CLI accepts.
#[derive(Debug)]
pub enum Commands {
    /// Request test funding for a wallet, or for the authority when none is
    /// named.
    RequestAirdrop { sol_amount: u64, pubkey: Option<String> },
    /// Create the reward token's mint.
    CreateMint {},
    /// Create the authority's holding account for the reward token.
    CreateTokenAccount {},
    /// Mint whole reward tokens to the authority.
    MintTokens { amount: u64 },
    /// Send whole reward tokens to a wallet.
    SendTokens { recipient: String, amount: u64 },
    /// Attach the token's descriptor records.
    CreateMetadataAccounts {},
}

} // verus!
