//! Setting up the launchpad's configuration.

use vstd::prelude::*;

use crate::errors::InstructionError;
use crate::pubkey::Pubkey;
use crate::state::GlobalConfig;

verus! {

/// The accounts of the instruction: the configuration's account, which the
/// instruction creates, and the signer who becomes its admin.
#[derive(Clone, Copy, Debug, PartialEq, Eq)]
pub struct InitializeGlobalConfig {
    pub global_config: GlobalConfig,
    /// Whether the configuration's account exists already.
    pub global_config_exists: bool,
    pub admin: Pubkey,
}

/// What setting up the configuration gives: its result and the accounts
/// after it. An account that exists already is not created again, and
/// nothing changes; else the signer becomes the admin, the fee settings are
/// recorded as given, and the account exists from then on.
pub open spec fn spec_initialize(
    ctx: InitializeGlobalConfig,
    create_memecoin_fee_receiver: Pubkey,
    launch_success_fee_receiver: Pubkey,
    create_memecoin_fee: u64,
    launch_success_fee_bps: u16,
) -> (Result<(), InstructionError>, InitializeGlobalConfig) {
    if ctx.global_config_exists {
        (Err(InstructionError::AccountAlreadyInUse), ctx)
    } else {
        (
            Ok(()),
            InitializeGlobalConfig {
                global_config: GlobalConfig {
                    admin: ctx.admin,
                    create_memecoin_fee_receiver,
                    launch_success_fee_receiver,
                    create_memecoin_fee,
                    launch_success_fee_bps,
                },
                global_config_exists: true,
                admin: ctx.admin,
            },
        )
    }
}

/// Creates the configuration's account, makes the signer the admin and
/// records the fee settings as given. No check is made on the fee rate. An
/// account that exists already is refused as `AccountAlreadyInUse`, and
/// nothing changes.
pub fn handler(
    ctx: &mut InitializeGlobalConfig,
    create_memecoin_fee_receiver: Pubkey,
    launch_success_fee_receiver: Pubkey,
    create_memecoin_fee: u64,
    launch_success_fee_bps: u16,
) -> (res: Result<(), InstructionError>)
    ensures
        (res, *final(ctx)) == spec_initialize(
            *old(ctx),
            create_memecoin_fee_receiver,
            launch_success_fee_receiver,
            create_memecoin_fee,
            launch_success_fee_bps,
        ),
{
    if ctx.global_config_exists {
        return Err(InstructionError::AccountAlreadyInUse);
    }
    let admin_key = ctx.admin;
    match ctx.global_config.initialize(
        admin_key,
        create_memecoin_fee_receiver,
        launch_success_fee_receiver,
        create_memecoin_fee,
        launch_success_fee_bps,
    ) {
        Ok(()) => {},
        Err(e) => return Err(InstructionError::Custom(e)),
    }
    ctx.global_config_exists = true;
    Ok(())
}

/// The configuration is set up at most once: after a first attempt, whether
/// it succeeded or not, any further attempt, whoever signs it and whatever
/// settings it carries, is refused and leaves the admin and every fee
/// setting as they were.
pub proof fn global_config_initialized_once(
    ctx: InitializeGlobalConfig,
    create_memecoin_fee_receiver: Pubkey,
    launch_success_fee_receiver: Pubkey,
    create_memecoin_fee: u64,
    launch_success_fee_bps: u16,
    next_signer: Pubkey,
    next_create_memecoin_fee_receiver: Pubkey,
    next_launch_success_fee_receiver: Pubkey,
    next_create_memecoin_fee: u64,
    next_launch_success_fee_bps: u16,
)
    ensures
        ({
            let first = spec_initialize(
                ctx,
                create_memecoin_fee_receiver,
                launch_success_fee_receiver,
                create_memecoin_fee,
                launch_success_fee_bps,
            ).1;
            let again = InitializeGlobalConfig { admin: next_signer, ..first };
            spec_initialize(
                again,
                next_create_memecoin_fee_receiver,
                next_launch_success_fee_receiver,
                next_create_memecoin_fee,
                next_launch_success_fee_bps,
            ) == (Err::<(), InstructionError>(InstructionError::AccountAlreadyInUse), again)
        }),
{
}

} // verus!
