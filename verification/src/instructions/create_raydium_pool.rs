//! Opening the liquidity pool of a memecoin whose launch succeeded.

use vstd::prelude::*;

use crate::errors::{ErrorCode, InstructionError};
use crate::fees::{bps_share, spec_bps_share};
use crate::instructions::check_address;
use crate::pubkey::{key_eq, spec_pubkey_from_str, wsol_mint_pubkey, Pubkey, WSOL_MINT_ADDRESS};
use crate::state::{spec_tier_value, GlobalConfig, LaunchStatus, MemecoinConfig};

verus! {

/// The accounts of the instruction, as far as its rules read them, and the
/// time on the cluster's clock.
#[derive(Clone, Copy, Debug, PartialEq, Eq)]
pub struct CreateRaydiumPool {
    pub memecoin_config: MemecoinConfig,
    pub global_config: GlobalConfig,
    /// Mint of the pool's first token.
    pub token_0_mint: Pubkey,
    /// Mint of the pool's second token.
    pub token_1_mint: Pubkey,
    /// Balance of the configuration's account of the first token.
    pub memecoin_config_token_0_amount: u64,
    /// Balance of the configuration's account of the second token.
    pub memecoin_config_token_1_amount: u64,
    /// The account handed in as receiver of the launch fee.
    pub launch_success_fee_receiver: Pubkey,
    /// Unix time on the cluster's clock, in seconds.
    pub clock_unix_timestamp: i64,
}

/// What opening the pool does: the amounts that seed the pool (the pool is
/// opened only when both are nonzero), when it opens, and the launch fee in
/// lamports and in memecoin.
#[derive(Clone, Copy, Debug, PartialEq, Eq)]
pub struct RaydiumPoolLaunch {
    pub init_amount_0: u64,
    pub init_amount_1: u64,
    pub open_time: u64,
    pub initialize_pool: bool,
    pub launch_success_fee_sol_amount: u64,
    pub launch_success_fee_memecoin_amount: u64,
    /// Whether the memecoin fee is paid from the second token's account (the
    /// first token being wrapped SOL) rather than from the first's.
    pub memecoin_fee_from_token_1: bool,
}

/// The plan of a pool opening when no check refuses it.
pub open spec fn spec_pool_launch(ctx: CreateRaydiumPool, wsol_first: bool) -> RaydiumPoolLaunch {
    let total_funding_raise_amount = spec_tier_value(ctx.memecoin_config.funding_raise_tier);
    let bps = ctx.global_config.launch_success_fee_bps as int;
    let meme_amount = if wsol_first {
        ctx.memecoin_config_token_1_amount
    } else {
        ctx.memecoin_config_token_0_amount
    };
    let fee_meme = spec_bps_share(meme_amount as int, bps);
    let init_0 = if wsol_first {
        ctx.memecoin_config_token_0_amount as int
    } else {
        ctx.memecoin_config_token_0_amount - fee_meme
    };
    let init_1 = if wsol_first {
        ctx.memecoin_config_token_1_amount - fee_meme
    } else {
        ctx.memecoin_config_token_1_amount as int
    };
    RaydiumPoolLaunch {
        init_amount_0: init_0 as u64,
        init_amount_1: init_1 as u64,
        open_time: ctx.clock_unix_timestamp as u64,
        initialize_pool: init_0 != 0 && init_1 != 0,
        launch_success_fee_sol_amount: spec_bps_share(total_funding_raise_amount as int, bps) as u64,
        launch_success_fee_memecoin_amount: fee_meme as u64,
        memecoin_fee_from_token_1: wsol_first,
    }
}

/// What opening the pool gives, given the wrapped SOL mint's address: the
/// plan, or why it is refused.
pub open spec fn spec_pool_outcome(ctx: CreateRaydiumPool, wsol_mint: Seq<u8>) -> Result<
    RaydiumPoolLaunch,
    InstructionError,
> {
    let bps = ctx.global_config.launch_success_fee_bps as int;
    let total_funding_raise_amount = spec_tier_value(ctx.memecoin_config.funding_raise_tier);
    let wsol_first = ctx.token_0_mint@ == wsol_mint;
    let meme_amount = if wsol_first {
        ctx.memecoin_config_token_1_amount
    } else {
        ctx.memecoin_config_token_0_amount
    };
    if ctx.launch_success_fee_receiver@ != ctx.global_config.launch_success_fee_receiver@ {
        Err(InstructionError::ConstraintAddress)
    } else if ctx.memecoin_config.status != LaunchStatus::Succeed {
        Err(InstructionError::Custom(ErrorCode::OnlyCreatePoolWhenLaunchSuccess))
    } else if total_funding_raise_amount * bps > u64::MAX || meme_amount * bps > u64::MAX
        || spec_bps_share(meme_amount as int, bps) > meme_amount {
        Err(InstructionError::Custom(ErrorCode::CalculationError))
    } else {
        Ok(spec_pool_launch(ctx, wsol_first))
    }
}

/// Plans the opening of a memecoin's pool, given the wrapped SOL mint.
///
/// The launch fee receiver handed in must be the configured one, and the
/// launch must have succeeded. The launchpad keeps its fee rate of the raised
/// lamports (what the memecoin's funding tier raises), and of the memecoin in the configuration's account of whichever
/// pool token is not wrapped SOL; the rest seeds the pool. A product that
/// does not fit in a `u64`, or a fee larger than the memecoin it is taken
/// from, is a `CalculationError`. Nothing in the accounts changes here.
pub fn handler(ctx: &CreateRaydiumPool, wsol_mint: &Pubkey) -> (res: Result<RaydiumPoolLaunch, InstructionError>)
    ensures
        res == spec_pool_outcome(*ctx, wsol_mint@),
        pool_outcome_obeys_launch_rules(*ctx, wsol_mint@, res),
{
    proof {
        pool_only_after_success(*ctx, wsol_mint@);
    }
    match check_address(&ctx.launch_success_fee_receiver, &ctx.global_config.launch_success_fee_receiver) {
        Ok(()) => {},
        Err(e) => return Err(e),
    }
    if ctx.memecoin_config.status != LaunchStatus::Succeed {
        return Err(InstructionError::Custom(ErrorCode::OnlyCreatePoolWhenLaunchSuccess));
    }
    let total_funding_raise_amount = ctx.memecoin_config.funding_raise_tier.value();
    let launch_success_fee_bps = ctx.global_config.launch_success_fee_bps as u64;
    let launch_success_fee_sol_amount = match bps_share(total_funding_raise_amount, launch_success_fee_bps) {
        Ok(v) => v,
        Err(e) => return Err(InstructionError::Custom(e)),
    };
    let init_amount_0;
    let init_amount_1;
    let launch_success_fee_memecoin_amount;
    let memecoin_fee_from_token_1;
    if key_eq(&ctx.token_0_mint, wsol_mint) {
        init_amount_0 = ctx.memecoin_config_token_0_amount;
        memecoin_fee_from_token_1 = true;
        launch_success_fee_memecoin_amount = match bps_share(ctx.memecoin_config_token_1_amount, launch_success_fee_bps) {
            Ok(v) => v,
            Err(e) => return Err(InstructionError::Custom(e)),
        };
        init_amount_1 = match ctx.memecoin_config_token_1_amount.checked_sub(launch_success_fee_memecoin_amount) {
            Some(v) => v,
            None => return Err(InstructionError::Custom(ErrorCode::CalculationError)),
        };
    } else {
        init_amount_1 = ctx.memecoin_config_token_1_amount;
        memecoin_fee_from_token_1 = false;
        launch_success_fee_memecoin_amount = match bps_share(ctx.memecoin_config_token_0_amount, launch_success_fee_bps) {
            Ok(v) => v,
            Err(e) => return Err(InstructionError::Custom(e)),
        };
        init_amount_0 = match ctx.memecoin_config_token_0_amount.checked_sub(launch_success_fee_memecoin_amount) {
            Some(v) => v,
            None => return Err(InstructionError::Custom(ErrorCode::CalculationError)),
        };
    }
    let open_time = ctx.clock_unix_timestamp as u64;
    Ok(RaydiumPoolLaunch {
        init_amount_0,
        init_amount_1,
        open_time,
        initialize_pool: init_amount_0 != 0 && init_amount_1 != 0,
        launch_success_fee_sol_amount,
        launch_success_fee_memecoin_amount,
        memecoin_fee_from_token_1,
    })
}

/// The rules that any pool opening keeps, stated of its result: a pool is
/// planned only for a launch that succeeded and with the configured fee
/// receiver, and a launch that did not succeed is refused with
/// `OnlyCreatePoolWhenLaunchSuccess`. A plan keeps the wrapped SOL side
/// whole; the memecoin side and the memecoin fee add up to the memecoin
/// held; each fee is its amount times the fee rate over 10000, rounded down;
/// the pool opens at the clock's time, and only with both sides nonzero.
pub open spec fn pool_outcome_obeys_launch_rules(
    ctx: CreateRaydiumPool,
    wsol_mint: Seq<u8>,
    res: Result<RaydiumPoolLaunch, InstructionError>,
) -> bool {
    let receiver_ok = ctx.launch_success_fee_receiver@ == ctx.global_config.launch_success_fee_receiver@;
    let bps = ctx.global_config.launch_success_fee_bps as int;
    let raised = spec_tier_value(ctx.memecoin_config.funding_raise_tier) as int;
    let wsol_first = ctx.token_0_mint@ == wsol_mint;
    let meme = if wsol_first {
        ctx.memecoin_config_token_1_amount as int
    } else {
        ctx.memecoin_config_token_0_amount as int
    };
    &&& receiver_ok && ctx.memecoin_config.status != LaunchStatus::Succeed ==> res == Err::<
        RaydiumPoolLaunch,
        InstructionError,
    >(InstructionError::Custom(ErrorCode::OnlyCreatePoolWhenLaunchSuccess))
    &&& !receiver_ok ==> res == Err::<RaydiumPoolLaunch, InstructionError>(
        InstructionError::ConstraintAddress,
    )
    &&& res is Ok ==> receiver_ok && ctx.memecoin_config.status == LaunchStatus::Succeed
    &&& receiver_ok && ctx.memecoin_config.status == LaunchStatus::Succeed && bps <= 10000 && meme
        * bps <= u64::MAX ==> res is Ok
    &&& res matches Ok(p) ==> {
        let fee_sol = p.launch_success_fee_sol_amount as int;
        let fee_meme = p.launch_success_fee_memecoin_amount as int;
        &&& p.memecoin_fee_from_token_1 == wsol_first
        &&& fee_sol * 10000 <= raised * bps < (fee_sol + 1) * 10000
        &&& fee_meme * 10000 <= meme * bps < (fee_meme + 1) * 10000
        &&& if wsol_first {
            p.init_amount_0 == ctx.memecoin_config_token_0_amount && p.init_amount_1 + fee_meme
                == ctx.memecoin_config_token_1_amount
        } else {
            p.init_amount_1 == ctx.memecoin_config_token_1_amount && p.init_amount_0 + fee_meme
                == ctx.memecoin_config_token_0_amount
        }
        &&& p.open_time == ctx.clock_unix_timestamp as u64
        &&& p.initialize_pool == (p.init_amount_0 != 0 && p.init_amount_1 != 0)
    }
}

/// Opening a pool keeps the launch rules whatever the accounts and the
/// wrapped SOL mint: see `pool_outcome_obeys_launch_rules`.
pub proof fn pool_only_after_success(ctx: CreateRaydiumPool, wsol_mint: Seq<u8>)
    ensures
        pool_outcome_obeys_launch_rules(ctx, wsol_mint, spec_pool_outcome(ctx, wsol_mint)),
{
    let bps = ctx.global_config.launch_success_fee_bps as int;
    let raised = spec_tier_value(ctx.memecoin_config.funding_raise_tier) as int;
    let wsol_first = ctx.token_0_mint@ == wsol_mint;
    let meme = if wsol_first {
        ctx.memecoin_config_token_1_amount as int
    } else {
        ctx.memecoin_config_token_0_amount as int
    };
    assert(raised <= 100_000_000_000);
    if bps <= 10000 {
        assert(raised * bps <= 100_000_000_000 * 10000) by (nonlinear_arith)
            requires
                0 <= raised <= 100_000_000_000,
                0 <= bps <= 10000,
        ;
        assert(meme * bps <= u64::MAX ==> (meme * bps) / 10000 <= meme) by (nonlinear_arith)
            requires
                0 <= meme,
                0 <= bps <= 10000,
        ;
    }
    if spec_pool_outcome(ctx, wsol_mint) is Ok {
        let x = raised * bps;
        let y = meme * bps;
        assert(raised <= 100_000_000_000);
        assert(x >= 0 && y >= 0) by (nonlinear_arith)
            requires
                raised >= 0,
                meme >= 0,
                bps >= 0,
                x == raised * bps,
                y == meme * bps,
        ;
        assert((x / 10000) * 10000 <= x < (x / 10000 + 1) * 10000) by (nonlinear_arith)
            requires
                x >= 0,
        ;
        assert((y / 10000) * 10000 <= y < (y / 10000 + 1) * 10000) by (nonlinear_arith)
            requires
                y >= 0,
        ;
    }
}

/// Plans the opening with the wrapped SOL mint's address parsed from its
/// text, as `handler` does. Nothing comes back if the text does not parse.
pub fn handler_for_wsol_mint(ctx: &CreateRaydiumPool) -> (res: Option<Result<RaydiumPoolLaunch, InstructionError>>)
    ensures
        res is None <==> spec_pubkey_from_str(WSOL_MINT_ADDRESS@) is None,
        res matches Some(r) ==> r == spec_pool_outcome(*ctx, spec_pubkey_from_str(WSOL_MINT_ADDRESS@)->0),
{
    match wsol_mint_pubkey() {
        Some(wsol_mint) => Some(handler(ctx, &wsol_mint)),
        None => None,
    }
}

/// When the fee rate is at most 10000 basis points, the memecoin that seeds
/// the pool and the memecoin fee add up to exactly the configuration's
/// memecoin: none is lost or made.
pub proof fn pool_launch_splits_memecoin_exactly(ctx: CreateRaydiumPool, wsol_first: bool)
    requires
        ctx.global_config.launch_success_fee_bps <= 10000,
    ensures
        ({
            let plan = spec_pool_launch(ctx, wsol_first);
            if wsol_first {
                plan.init_amount_1 + plan.launch_success_fee_memecoin_amount
                    == ctx.memecoin_config_token_1_amount && plan.init_amount_0
                    == ctx.memecoin_config_token_0_amount
            } else {
                plan.init_amount_0 + plan.launch_success_fee_memecoin_amount
                    == ctx.memecoin_config_token_0_amount && plan.init_amount_1
                    == ctx.memecoin_config_token_1_amount
            }
        }),
{
    let bps = ctx.global_config.launch_success_fee_bps as nat;
    crate::fees::bps_share_at_most_amount(ctx.memecoin_config_token_0_amount as nat, bps);
    crate::fees::bps_share_at_most_amount(ctx.memecoin_config_token_1_amount as nat, bps);
}

} // verus!
