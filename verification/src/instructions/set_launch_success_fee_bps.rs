//! Changing the launchpad's share of a successful launch.

use vstd::prelude::*;

use crate::errors::{ErrorCode, InstructionError};
use crate::instructions::check_admin;
use crate::pubkey::Pubkey;
use crate::state::GlobalConfig;

verus! {

/// The accounts of the instruction: the configuration and the signer, who
/// must be its admin.
#[derive(Clone, Copy, Debug, PartialEq, Eq)]
pub struct SetLaunchSuccessFeeBps {
    pub global_config: GlobalConfig,
    pub admin: Pubkey,
}

/// Only the admin may change the rate, and only to less than 10000 basis
/// points; a refused change leaves everything as it was.
pub fn handler(ctx: &mut SetLaunchSuccessFeeBps, launch_success_fee_bps: u16) -> (res: Result<
    (),
    InstructionError,
>)
    ensures
        old(ctx).global_config.admin@ != old(ctx).admin@ ==> res == Err::<(), InstructionError>(
            InstructionError::ConstraintHasOne,
        ) && *final(ctx) == *old(ctx),
        old(ctx).global_config.admin@ == old(ctx).admin@ && launch_success_fee_bps >= 10000
            ==> res == Err::<(), InstructionError>(
            InstructionError::Custom(ErrorCode::InvalidLaunchSuccessFeeBps),
        ) && *final(ctx) == *old(ctx),
        old(ctx).global_config.admin@ == old(ctx).admin@ && launch_success_fee_bps < 10000
            ==> res == Ok::<(), InstructionError>(()) && final(ctx).admin == old(ctx).admin && final(ctx).global_config == (
        GlobalConfig { launch_success_fee_bps, ..old(ctx).global_config }),
{
    match check_admin(&ctx.global_config, &ctx.admin) {
        Ok(()) => {},
        Err(e) => return Err(e),
    }
    match ctx.global_config.set_launch_success_fee_bps(launch_success_fee_bps) {
        Ok(()) => Ok(()),
        Err(e) => Err(InstructionError::Custom(e)),
    }
}

} // verus!
