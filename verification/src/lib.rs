//! Decisions of a memecoin launchpad: the admin's fee configuration, the
//! configuration of each creator's memecoins, the primary sale of a memecoin,
//! the split of the raised funds when a launch succeeds, and the search for
//! addresses whose text ends in "meme".
//!
//! Each instruction is a function from the data of the accounts it is handed
//! to the changes it makes and the transfers it orders; the program that runs
//! on chain reads the accounts, calls these functions, and carries the
//! transfers out.

pub mod constants;
pub mod errors;
pub mod fees;
pub mod instructions;
pub mod pubkey;
pub mod seeds;
pub mod state;
pub mod vanity;

pub use errors::{ErrorCode, InstructionError};
pub use pubkey::{key_eq, wsol_mint_pubkey, Pubkey};
pub use state::{
    CreatorMemecoinCounter, FundingRaiseTier, GlobalConfig, LaunchStatus, MemecoinConfig,
};
