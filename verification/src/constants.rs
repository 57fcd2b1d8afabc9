//! Amounts that the launchpad is built with.

use vstd::prelude::*;

verus! {

/// Lamports in one SOL.
pub const LAMPORTS_PER_SOL: u64 = 1_000_000_000;

/// What each memecoin's mint receives, in base units; half of it is sold.
pub const MEMECOIN_TOTAL_SUPPLY: u64 = 1_000_000_000;

/// Lamports that opening a liquidity pool costs.
pub const CREATE_RAYDIUM_POOL_FEE: u64 = 150_000_000;

} // verus!
