//! Changing who receives the fee for creating a memecoin.

use vstd::prelude::*;

use crate::errors::InstructionError;
use crate::instructions::check_admin;
use crate::pubkey::Pubkey;
use crate::state::GlobalConfig;

verus! {

/// The accounts of the instruction: the configuration and the signer, who
/// must be its admin.
#[derive(Clone, Copy, Debug, PartialEq, Eq)]
pub struct SetCreateMemecoinFeeReceiver {
    pub global_config: GlobalConfig,
    pub admin: Pubkey,
}

/// Only the admin may make the change; anyone else is refused and nothing
/// changes.
pub fn handler(ctx: &mut SetCreateMemecoinFeeReceiver, create_memecoin_fee_receiver: &Pubkey) -> (res: Result<(), InstructionError>)
    ensures
        old(ctx).global_config.admin@ == old(ctx).admin@ ==> res == Ok::<(), InstructionError>(()) && final(ctx).admin
            == old(ctx).admin && final(ctx).global_config == (GlobalConfig { create_memecoin_fee_receiver: *create_memecoin_fee_receiver, ..old(ctx).global_config }),
        old(ctx).global_config.admin@ != old(ctx).admin@ ==> res == Err::<(), InstructionError>(
            InstructionError::ConstraintHasOne,
        ) && *final(ctx) == *old(ctx),
{
    match check_admin(&ctx.global_config, &ctx.admin) {
        Ok(()) => {},
        Err(e) => return Err(e),
    }
    ctx.global_config.set_create_memecoin_fee_receiver(create_memecoin_fee_receiver);
    Ok(())
}

} // verus!
