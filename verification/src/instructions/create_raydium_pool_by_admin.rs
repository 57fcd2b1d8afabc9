//! The admin taking over the funds of a memecoin whose launch succeeded, to
//! open its pool by hand.

use vstd::prelude::*;

use crate::errors::{ErrorCode, InstructionError};
use crate::fees::{bps_share, spec_bps_share};
use crate::instructions::{check_address, check_admin, transfer_lamports};
use crate::pubkey::{key_eq, spec_pubkey_from_str, wsol_mint_pubkey, Pubkey, WSOL_MINT_ADDRESS};
use crate::constants::CREATE_RAYDIUM_POOL_FEE;
use crate::state::{spec_tier_value, GlobalConfig, LaunchStatus, MemecoinConfig};

verus! {

/// The accounts of the instruction, as far as its rules read them.
#[derive(Clone, Copy, Debug, PartialEq, Eq)]
pub struct CreateRaydiumPoolByAdmin {
    pub memecoin_config: MemecoinConfig,
    pub global_config: GlobalConfig,
    /// The signer, who must be the admin.
    pub admin: Pubkey,
    /// The mint handed in as the wrapped SOL mint.
    pub wsol_mint: Pubkey,
    /// Memecoin held by the configuration's token account.
    pub memecoin_config_token_amount: u64,
    /// The account handed in as receiver of the launch fee.
    pub launch_success_fee_receiver: Pubkey,
    /// Lamports of the configuration's account.
    pub memecoin_config_lamports: u64,
    /// The least balance at which the configuration's account stays exempt
    /// from rent.
    pub memecoin_config_rent_exempt_minimum: u64,
    /// Lamports of the launch fee receiver.
    pub launch_success_fee_receiver_lamports: u64,
    /// Lamports of the admin.
    pub admin_lamports: u64,
}

/// What the handover moves. The wrapped SOL and memecoin amounts are token
/// transfers out of the configuration's token accounts; the SOL fee and the
/// pool fee are lamports out of the configuration's account.
#[derive(Clone, Copy, Debug, PartialEq, Eq)]
pub struct AdminPoolHandover {
    pub transfer_to_admin_wsol_amount: u64,
    pub transfer_to_admin_memecoin_amount: u64,
    pub launch_success_fee_memecoin_amount: u64,
    pub launch_success_fee_sol_amount: u64,
    pub create_raydium_pool_fee: u64,
}

/// Why the handover is refused before any lamports move, if it is.
pub open spec fn spec_handover_refusal(ctx: CreateRaydiumPoolByAdmin, wsol_mint: Seq<u8>) -> Option<
    InstructionError,
> {
    let total_funding_raise_amount = spec_tier_value(ctx.memecoin_config.funding_raise_tier);
    let create_raydium_pool_fee = CREATE_RAYDIUM_POOL_FEE;
    let bps = ctx.global_config.launch_success_fee_bps as int;
    let fee_sol = spec_bps_share(total_funding_raise_amount as int, bps);
    let tokens = ctx.memecoin_config_token_amount as int;
    if ctx.global_config.admin@ != ctx.admin@ {
        Some(InstructionError::ConstraintHasOne)
    } else if ctx.launch_success_fee_receiver@ != ctx.global_config.launch_success_fee_receiver@ {
        Some(InstructionError::ConstraintAddress)
    } else if ctx.memecoin_config.status != LaunchStatus::Succeed {
        Some(InstructionError::Custom(ErrorCode::OnlyCreatePoolWhenLaunchSuccess))
    } else if ctx.wsol_mint@ != wsol_mint {
        Some(InstructionError::Custom(ErrorCode::WrongWSOLMint))
    } else if total_funding_raise_amount * bps > u64::MAX || fee_sol + create_raydium_pool_fee
        > total_funding_raise_amount || tokens * bps > u64::MAX || spec_bps_share(tokens, bps)
        > tokens {
        Some(InstructionError::Custom(ErrorCode::CalculationError))
    } else {
        None
    }
}

/// The SOL fee actually taken: the launchpad's share of the raised lamports,
/// but no more than what the configuration's account holds above its
/// rent-exempt minimum.
pub open spec fn spec_sol_fee_taken(ctx: CreateRaydiumPoolByAdmin) -> int {
    let total_funding_raise_amount = spec_tier_value(ctx.memecoin_config.funding_raise_tier);
    let fee_sol = spec_bps_share(
        total_funding_raise_amount as int,
        ctx.global_config.launch_success_fee_bps as int,
    );
    let available = if ctx.memecoin_config_lamports >= ctx.memecoin_config_rent_exempt_minimum {
        ctx.memecoin_config_lamports - ctx.memecoin_config_rent_exempt_minimum
    } else {
        0
    };
    if fee_sol > available {
        available
    } else {
        fee_sol
    }
}

/// What the handover gives, given the wrapped SOL mint's address: what it
/// moves or why it is refused, and the accounts after it. A refusal leaves
/// the accounts as they were.
pub open spec fn spec_handover_outcome(ctx: CreateRaydiumPoolByAdmin, wsol_mint: Seq<u8>) -> (
    Result<AdminPoolHandover, InstructionError>,
    CreateRaydiumPoolByAdmin,
) {
    let bps = ctx.global_config.launch_success_fee_bps as int;
    let total_funding_raise_amount = spec_tier_value(ctx.memecoin_config.funding_raise_tier);
    let create_raydium_pool_fee = CREATE_RAYDIUM_POOL_FEE;
    let fee_sol = spec_bps_share(total_funding_raise_amount as int, bps);
    let fee_meme = spec_bps_share(ctx.memecoin_config_token_amount as int, bps);
    let taken = spec_sol_fee_taken(ctx);
    let config_lamports = ctx.memecoin_config_lamports as int;
    let receiver_lamports = ctx.launch_success_fee_receiver_lamports as int;
    let admin_lamports = ctx.admin_lamports as int;
    if let Some(e) = spec_handover_refusal(ctx, wsol_mint) {
        (Err(e), ctx)
    } else if receiver_lamports + taken > u64::MAX {
        (Err(InstructionError::ArithmeticOverflow), ctx)
    } else if create_raydium_pool_fee > config_lamports - taken || admin_lamports
        + create_raydium_pool_fee > u64::MAX {
        (Err(InstructionError::ArithmeticOverflow), ctx)
    } else {
        (
            Ok(
                AdminPoolHandover {
                    transfer_to_admin_wsol_amount: (total_funding_raise_amount - fee_sol
                        - create_raydium_pool_fee) as u64,
                    transfer_to_admin_memecoin_amount: (ctx.memecoin_config_token_amount
                        - fee_meme) as u64,
                    launch_success_fee_memecoin_amount: fee_meme as u64,
                    launch_success_fee_sol_amount: taken as u64,
                    create_raydium_pool_fee,
                },
            ),
            CreateRaydiumPoolByAdmin {
                memecoin_config_lamports: (config_lamports - taken - create_raydium_pool_fee) as u64,
                launch_success_fee_receiver_lamports: (receiver_lamports + taken) as u64,
                admin_lamports: (admin_lamports + create_raydium_pool_fee) as u64,
                ..ctx
            },
        )
    }
}

/// Hands a successful memecoin's funds to the admin, given the wrapped SOL
/// mint.
///
/// Only the admin may do it, with the configured launch fee receiver and the
/// wrapped SOL mint, and only after a successful launch. Of the lamports
/// that the funding tier raised, the launchpad's share and the fee for
/// opening a pool (`CREATE_RAYDIUM_POOL_FEE`) are held back and the
/// rest goes to the admin as wrapped SOL; of the configuration's memecoin,
/// the launchpad's share goes to the fee receiver and the rest to the admin.
/// The SOL fee moves from the configuration's account to the fee receiver,
/// capped so as to leave the account's rent-exempt minimum, and then the pool
/// fee moves from it to the admin. A lamport move that would overdraw or
/// overflow a balance is refused, and leaves every balance as it was.
pub fn handler(ctx: &mut CreateRaydiumPoolByAdmin, wsol_mint: &Pubkey) -> (res: Result<AdminPoolHandover, InstructionError>)
    ensures
        res is Ok ==> final(ctx).memecoin_config_lamports + final(ctx).launch_success_fee_receiver_lamports
            + final(ctx).admin_lamports == old(ctx).memecoin_config_lamports + old(
            ctx).launch_success_fee_receiver_lamports + old(ctx).admin_lamports,
        res matches Ok(h) ==> h.transfer_to_admin_memecoin_amount + h.launch_success_fee_memecoin_amount
            == old(ctx).memecoin_config_token_amount,
        res matches Ok(h) ==> h.transfer_to_admin_wsol_amount + spec_bps_share(
            spec_tier_value(old(ctx).memecoin_config.funding_raise_tier) as int,
            old(ctx).global_config.launch_success_fee_bps as int,
        ) + h.create_raydium_pool_fee == spec_tier_value(old(ctx).memecoin_config.funding_raise_tier),
        res matches Ok(h) ==> old(ctx).memecoin_config_lamports >= old(ctx).memecoin_config_rent_exempt_minimum
            ==> old(ctx).memecoin_config_lamports - h.launch_success_fee_sol_amount >= old(
            ctx).memecoin_config_rent_exempt_minimum,
        (res, *final(ctx)) == spec_handover_outcome(*old(ctx), wsol_mint@),
        handover_obeys_launch_rules(*old(ctx), wsol_mint@, res, *final(ctx)),
{
    proof {
        handover_only_after_success(*ctx, wsol_mint@);
    }
    match check_admin(&ctx.global_config, &ctx.admin) {
        Ok(()) => {},
        Err(e) => return Err(e),
    }
    match check_address(&ctx.launch_success_fee_receiver, &ctx.global_config.launch_success_fee_receiver) {
        Ok(()) => {},
        Err(e) => return Err(e),
    }
    if ctx.memecoin_config.status != LaunchStatus::Succeed {
        return Err(InstructionError::Custom(ErrorCode::OnlyCreatePoolWhenLaunchSuccess));
    }
    if !key_eq(&ctx.wsol_mint, wsol_mint) {
        return Err(InstructionError::Custom(ErrorCode::WrongWSOLMint));
    }
    let total_funding_raise_amount = ctx.memecoin_config.funding_raise_tier.value();
    let create_raydium_pool_fee = CREATE_RAYDIUM_POOL_FEE;
    let launch_success_fee_bps = ctx.global_config.launch_success_fee_bps as u64;
    let mut launch_success_fee_sol_amount = match bps_share(total_funding_raise_amount, launch_success_fee_bps) {
        Ok(v) => v,
        Err(e) => return Err(InstructionError::Custom(e)),
    };
    let after_fee = match total_funding_raise_amount.checked_sub(launch_success_fee_sol_amount) {
        Some(v) => v,
        None => return Err(InstructionError::Custom(ErrorCode::CalculationError)),
    };
    let transfer_to_admin_wsol_amount = match after_fee.checked_sub(create_raydium_pool_fee) {
        Some(v) => v,
        None => return Err(InstructionError::Custom(ErrorCode::CalculationError)),
    };
    let launch_success_fee_memecoin_amount = match bps_share(ctx.memecoin_config_token_amount, launch_success_fee_bps) {
        Ok(v) => v,
        Err(e) => return Err(InstructionError::Custom(e)),
    };
    let transfer_to_admin_memecoin_amount = match ctx.memecoin_config_token_amount.checked_sub(launch_success_fee_memecoin_amount) {
        Some(v) => v,
        None => return Err(InstructionError::Custom(ErrorCode::CalculationError)),
    };

    let lamports_to_transfer = ctx.memecoin_config_lamports.saturating_sub(ctx.memecoin_config_rent_exempt_minimum);
    if launch_success_fee_sol_amount > lamports_to_transfer {
        launch_success_fee_sol_amount = lamports_to_transfer;
    }
    let (config_after_fee, receiver_after_fee) = match transfer_lamports(
        ctx.memecoin_config_lamports,
        ctx.launch_success_fee_receiver_lamports,
        launch_success_fee_sol_amount,
    ) {
        Ok(balances) => balances,
        Err(e) => return Err(e),
    };
    let (config_after_pool_fee, admin_after_pool_fee) = match transfer_lamports(
        config_after_fee,
        ctx.admin_lamports,
        create_raydium_pool_fee,
    ) {
        Ok(balances) => balances,
        Err(e) => return Err(e),
    };
    ctx.memecoin_config_lamports = config_after_pool_fee;
    ctx.launch_success_fee_receiver_lamports = receiver_after_fee;
    ctx.admin_lamports = admin_after_pool_fee;
    Ok(AdminPoolHandover {
        transfer_to_admin_wsol_amount,
        transfer_to_admin_memecoin_amount,
        launch_success_fee_memecoin_amount,
        launch_success_fee_sol_amount,
        create_raydium_pool_fee,
    })
}

/// The rules that any handover keeps, stated of its result and of the
/// accounts after it: funds are handed over only by the admin, with the
/// configured fee receiver and the wrapped SOL mint, and only for a launch
/// that succeeded; a launch that did not succeed is refused with
/// `OnlyCreatePoolWhenLaunchSuccess`. A refusal moves no lamports. A
/// handover pays the pool fee to the admin and the SOL fee to the receiver,
/// both out of the configuration's account and nothing else changes; the
/// SOL fee is at most the fee rate of the raised lamports and, unless it is
/// all the account holds above its rent-exempt minimum, exactly that; the
/// wrapped SOL for the admin is the raised lamports less that rate and the
/// pool fee; and the memecoin splits between the admin and the fee receiver
/// at the fee rate, rounded down for the receiver.
pub open spec fn handover_obeys_launch_rules(
    ctx: CreateRaydiumPoolByAdmin,
    wsol_mint: Seq<u8>,
    res: Result<AdminPoolHandover, InstructionError>,
    after: CreateRaydiumPoolByAdmin,
) -> bool {
    let checks_pass = ctx.global_config.admin@ == ctx.admin@ && ctx.launch_success_fee_receiver@
        == ctx.global_config.launch_success_fee_receiver@;
    let bps = ctx.global_config.launch_success_fee_bps as int;
    let raised = spec_tier_value(ctx.memecoin_config.funding_raise_tier) as int;
    let tokens = ctx.memecoin_config_token_amount as int;
    let config = ctx.memecoin_config_lamports as int;
    let rent = ctx.memecoin_config_rent_exempt_minimum as int;
    let available = if config >= rent {
        config - rent
    } else {
        0
    };
    &&& ctx.global_config.admin@ != ctx.admin@ ==> res == Err::<AdminPoolHandover, InstructionError>(
        InstructionError::ConstraintHasOne,
    )
    &&& ctx.global_config.admin@ == ctx.admin@ && ctx.launch_success_fee_receiver@
        != ctx.global_config.launch_success_fee_receiver@ ==> res == Err::<
        AdminPoolHandover,
        InstructionError,
    >(InstructionError::ConstraintAddress)
    &&& checks_pass && ctx.memecoin_config.status == LaunchStatus::Succeed && ctx.wsol_mint@
        != wsol_mint ==> res == Err::<AdminPoolHandover, InstructionError>(
        InstructionError::Custom(ErrorCode::WrongWSOLMint),
    )
    &&& ({
        let fee_floor = (raised * bps) / 10000;
        let taken = if fee_floor > available {
            available
        } else {
            fee_floor
        };
        checks_pass && ctx.memecoin_config.status == LaunchStatus::Succeed && ctx.wsol_mint@
            == wsol_mint && bps <= 10000 && fee_floor + CREATE_RAYDIUM_POOL_FEE <= raised && tokens
            * bps <= u64::MAX && ctx.launch_success_fee_receiver_lamports + taken <= u64::MAX
            && config - taken >= CREATE_RAYDIUM_POOL_FEE && ctx.admin_lamports
            + CREATE_RAYDIUM_POOL_FEE <= u64::MAX ==> res is Ok
    })
    &&& checks_pass && ctx.memecoin_config.status != LaunchStatus::Succeed ==> res == Err::<
        AdminPoolHandover,
        InstructionError,
    >(InstructionError::Custom(ErrorCode::OnlyCreatePoolWhenLaunchSuccess))
    &&& res is Err ==> after == ctx
    &&& res is Ok ==> checks_pass && ctx.memecoin_config.status == LaunchStatus::Succeed
        && ctx.wsol_mint@ == wsol_mint
    &&& res matches Ok(h) ==> {
        let fee_sol = h.launch_success_fee_sol_amount as int;
        let pool_fee = h.create_raydium_pool_fee as int;
        let fee_meme = h.launch_success_fee_memecoin_amount as int;
        let held_back = raised - h.transfer_to_admin_wsol_amount - pool_fee;
        &&& pool_fee == CREATE_RAYDIUM_POOL_FEE
        &&& after == (CreateRaydiumPoolByAdmin {
            memecoin_config_lamports: after.memecoin_config_lamports,
            launch_success_fee_receiver_lamports: after.launch_success_fee_receiver_lamports,
            admin_lamports: after.admin_lamports,
            ..ctx
        })
        &&& after.memecoin_config_lamports + fee_sol + pool_fee == config
        &&& after.launch_success_fee_receiver_lamports == ctx.launch_success_fee_receiver_lamports
            + fee_sol
        &&& after.admin_lamports == ctx.admin_lamports + pool_fee
        &&& fee_sol <= available
        &&& fee_sol * 10000 <= raised * bps
        &&& fee_sol < available ==> raised * bps < (fee_sol + 1) * 10000
        &&& held_back * 10000 <= raised * bps < (held_back + 1) * 10000
        &&& h.transfer_to_admin_memecoin_amount + fee_meme == tokens
        &&& fee_meme * 10000 <= tokens * bps < (fee_meme + 1) * 10000
    }
}

/// A handover keeps the launch rules whatever the accounts and the wrapped
/// SOL mint: see `handover_obeys_launch_rules`.
pub proof fn handover_only_after_success(ctx: CreateRaydiumPoolByAdmin, wsol_mint: Seq<u8>)
    ensures
        handover_obeys_launch_rules(
            ctx,
            wsol_mint,
            spec_handover_outcome(ctx, wsol_mint).0,
            spec_handover_outcome(ctx, wsol_mint).1,
        ),
{
    let bps = ctx.global_config.launch_success_fee_bps as int;
    let raised = spec_tier_value(ctx.memecoin_config.funding_raise_tier) as int;
    let tokens = ctx.memecoin_config_token_amount as int;
    assert(raised <= 100_000_000_000);
    if bps <= 10000 {
        assert(raised * bps <= 100_000_000_000 * 10000) by (nonlinear_arith)
            requires
                0 <= raised <= 100_000_000_000,
                0 <= bps <= 10000,
        ;
        assert(tokens * bps <= u64::MAX ==> (tokens * bps) / 10000 <= tokens) by (nonlinear_arith)
            requires
                0 <= tokens,
                0 <= bps <= 10000,
        ;
    }
    if spec_handover_outcome(ctx, wsol_mint).0 is Ok {
        let x = raised * bps;
        let y = tokens * bps;
        assert(x >= 0 && y >= 0) by (nonlinear_arith)
            requires
                raised >= 0,
                tokens >= 0,
                bps >= 0,
                x == raised * bps,
                y == tokens * bps,
        ;
        assert((x / 10000) * 10000 <= x < (x / 10000 + 1) * 10000) by (nonlinear_arith)
            requires
                x >= 0,
        ;
        assert((y / 10000) * 10000 <= y < (y / 10000 + 1) * 10000) by (nonlinear_arith)
            requires
                y >= 0,
        ;
    }
}

/// Hands the funds over with the wrapped SOL mint's address parsed from its
/// text, as `handler` does. If the text does not parse, nothing comes back
/// and nothing changes.
pub fn handler_for_wsol_mint(ctx: &mut CreateRaydiumPoolByAdmin) -> (res: Option<
    Result<AdminPoolHandover, InstructionError>,
>)
    ensures
        res is None <==> spec_pubkey_from_str(WSOL_MINT_ADDRESS@) is None,
        res is None ==> *final(ctx) == *old(ctx),
        res matches Some(r) ==> (r, *final(ctx)) == spec_handover_outcome(
            *old(ctx),
            spec_pubkey_from_str(WSOL_MINT_ADDRESS@)->0,
        ),
{
    match wsol_mint_pubkey() {
        Some(wsol_mint) => Some(handler(ctx, &wsol_mint)),
        None => None,
    }
}

} // verus!
