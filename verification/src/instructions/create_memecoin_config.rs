//! A creator configuring a new memecoin.

use vstd::prelude::*;

use crate::errors::InstructionError;
use crate::instructions::check_address;
use crate::pubkey::key_eq;
use crate::pubkey::spec_try_find_program_address;
use crate::seeds::{find_memecoin_config_address, spec_memecoin_config_seeds};
use crate::pubkey::Pubkey;
use crate::state::{
    funding_raise_tier_from_code, spec_tier_from_code, CreatorMemecoinCounter, GlobalConfig,
    LaunchStatus, MemecoinConfig,
};

verus! {

/// The accounts of the instruction and the time on the cluster's clock.
#[derive(Clone, Copy, Debug, PartialEq, Eq)]
pub struct CreateMemecoinConfig {
    /// How many memecoins the creator has configured so far.
    pub creator_memecoin_counter: CreatorMemecoinCounter,
    /// The new memecoin's configuration.
    pub memecoin_config: MemecoinConfig,
    /// Address of the new configuration's account.
    pub memecoin_config_address: Pubkey,
    /// The launchpad program, under which configuration addresses are
    /// derived.
    pub program_id: Pubkey,
    /// The account handed in as receiver of the creation fee.
    pub create_memecoin_fee_receiver: Pubkey,
    /// The signer, who creates the memecoin.
    pub creator: Pubkey,
    pub global_config: GlobalConfig,
    /// Unix time on the cluster's clock, in seconds.
    pub clock_unix_timestamp: i64,
}

/// The address derived for the new configuration: from the creator and the
/// creator's current count, under the launchpad program.
pub open spec fn spec_new_config_address(ctx: CreateMemecoinConfig) -> Option<(Seq<u8>, u8)> {
    spec_try_find_program_address(
        spec_memecoin_config_seeds(ctx.creator@, ctx.creator_memecoin_counter.count),
        ctx.program_id@,
    )
}

/// Whether the new configuration's account sits at its derived address.
pub open spec fn spec_at_new_config_address(ctx: CreateMemecoinConfig) -> bool {
    spec_new_config_address(ctx) matches Some((address, _)) && address == ctx.memecoin_config_address@
}

/// Whether the creation gets as far as counting the memecoin.
pub open spec fn spec_creation_accepted(ctx: CreateMemecoinConfig, funding_raise_tier: u8) -> bool {
    &&& spec_at_new_config_address(ctx)
    &&& ctx.create_memecoin_fee_receiver@ == ctx.global_config.create_memecoin_fee_receiver@
    &&& spec_tier_from_code(funding_raise_tier) is Some
}

/// The new configuration's account must sit at the address derived from the
/// creator and the creator's current count (one must be derivable), the fee
/// receiver handed in must be the configured one, and the funding tier code
/// must name a tier. Then the new memecoin is configured with the creator,
/// the creator's current count as its index, the clock's time and the tier,
/// its sale ongoing, and the creator's count goes up by one. A refused
/// request changes nothing.
pub fn handler(ctx: &mut CreateMemecoinConfig, funding_raise_tier: u8) -> (res: Result<
    (),
    InstructionError,
>)
    requires
        spec_new_config_address(*old(ctx)) is Some,
        spec_creation_accepted(*old(ctx), funding_raise_tier) ==> old(ctx).creator_memecoin_counter.count
            < u32::MAX,
    ensures
        !spec_at_new_config_address(*old(ctx)) ==> res == Err::<(), InstructionError>(
            InstructionError::ConstraintSeeds,
        ) && *final(ctx) == *old(ctx),
        spec_at_new_config_address(*old(ctx)) && old(ctx).create_memecoin_fee_receiver@ != old(ctx).global_config.create_memecoin_fee_receiver@
            ==> res == Err::<(), InstructionError>(InstructionError::ConstraintAddress) && *final(ctx) == *old(ctx),
        spec_at_new_config_address(*old(ctx)) && old(ctx).create_memecoin_fee_receiver@ == old(ctx).global_config.create_memecoin_fee_receiver@
            && spec_tier_from_code(funding_raise_tier) is None ==> res == Err::<
            (),
            InstructionError,
        >(InstructionError::Custom(crate::errors::ErrorCode::InvalidFundingRaiseTier)) && *final(ctx) == *old(ctx),
        spec_creation_accepted(*old(ctx), funding_raise_tier) ==> {
            &&& res == Ok::<(), InstructionError>(())
            &&& final(ctx).memecoin_config == (MemecoinConfig {
                creator: old(ctx).creator,
                creator_memecoin_index: old(ctx).creator_memecoin_counter.count,
                created_time: old(ctx).clock_unix_timestamp as u64,
                status: LaunchStatus::Ongoing,
                funding_raise_tier: spec_tier_from_code(funding_raise_tier).unwrap(),
            })
            &&& final(ctx).creator_memecoin_counter.count == old(ctx).creator_memecoin_counter.count
                + 1
            &&& spec_try_find_program_address(
                spec_memecoin_config_seeds(
                    final(ctx).memecoin_config.creator@,
                    final(ctx).memecoin_config.creator_memecoin_index,
                ),
                old(ctx).program_id@,
            ) matches Some((address, _)) && address == old(ctx).memecoin_config_address@
            &&& final(ctx).memecoin_config_address == old(ctx).memecoin_config_address
            &&& final(ctx).program_id == old(ctx).program_id
            &&& final(ctx).create_memecoin_fee_receiver == old(ctx).create_memecoin_fee_receiver
            &&& final(ctx).creator == old(ctx).creator
            &&& final(ctx).global_config == old(ctx).global_config
            &&& final(ctx).clock_unix_timestamp == old(ctx).clock_unix_timestamp
        },
{
    match find_memecoin_config_address(&ctx.creator, ctx.creator_memecoin_counter.count, &ctx.program_id) {
        Some((address, _bump)) => {
            if !key_eq(&address, &ctx.memecoin_config_address) {
                return Err(InstructionError::ConstraintSeeds);
            }
        },
        None => {
            assert(false);
            return Err(InstructionError::ConstraintSeeds);
        },
    }
    match check_address(&ctx.create_memecoin_fee_receiver, &ctx.global_config.create_memecoin_fee_receiver) {
        Ok(()) => {},
        Err(e) => return Err(e),
    }
    let creator = ctx.creator;
    let current_timestamp = ctx.clock_unix_timestamp as u64;
    let tier = match funding_raise_tier_from_code(funding_raise_tier) {
        Ok(t) => t,
        Err(e) => return Err(InstructionError::Custom(e)),
    };
    let index = ctx.creator_memecoin_counter.count;
    match ctx.memecoin_config.create_memecoin_config(&creator, index, current_timestamp, tier) {
        Ok(()) => {},
        Err(e) => return Err(InstructionError::Custom(e)),
    }
    ctx.creator_memecoin_counter.increment();
    Ok(())
}

/// Creates the memecoin's configuration when an address can be derived for
/// it, as `handler` does; when none can, nothing changes and nothing comes
/// back.
pub fn handler_when_address_derivable(ctx: &mut CreateMemecoinConfig, funding_raise_tier: u8) -> (res:
    Option<Result<(), InstructionError>>)
    requires
        spec_creation_accepted(*old(ctx), funding_raise_tier) ==> old(ctx).creator_memecoin_counter.count
            < u32::MAX,
    ensures
        spec_new_config_address(*old(ctx)) is None ==> res is None && *final(ctx) == *old(ctx),
        spec_new_config_address(*old(ctx)) is Some ==> res is Some,
        res matches Some(r) ==> (r is Ok <==> spec_creation_accepted(*old(ctx), funding_raise_tier)),
        res matches Some(Ok(())) ==> final(ctx).memecoin_config.creator_memecoin_index == old(ctx).creator_memecoin_counter.count && final(ctx).creator_memecoin_counter.count == old(ctx).creator_memecoin_counter.count + 1,
        res matches Some(Err(_)) ==> *final(ctx) == *old(ctx),
{
    match find_memecoin_config_address(&ctx.creator, ctx.creator_memecoin_counter.count, &ctx.program_id) {
        Some(_) => Some(handler(ctx, funding_raise_tier)),
        None => None,
    }
}

/// A memecoin created with a tier code is announced, when it is minted,
/// with that same code: reading the code at creation and writing it at
/// minting undo each other.
pub proof fn created_tier_code_announced_at_minting(config: MemecoinConfig, funding_raise_tier: u8)
    requires
        spec_tier_from_code(funding_raise_tier) is Some,
        config.funding_raise_tier == spec_tier_from_code(funding_raise_tier).unwrap(),
    ensures
        crate::state::spec_tier_code(config.funding_raise_tier) == funding_raise_tier,
{
}

} // verus!
