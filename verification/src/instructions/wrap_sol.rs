//! Wrapping the raised SOL of a memecoin whose launch succeeded.

use vstd::prelude::*;

use crate::errors::{ErrorCode, InstructionError};
use crate::fees::{bps_remainder, spec_bps_remainder};
use crate::pubkey::{key_eq, spec_pubkey_from_str, wsol_mint_pubkey, Pubkey, WSOL_MINT_ADDRESS};
use crate::state::{spec_tier_value, GlobalConfig, LaunchStatus, MemecoinConfig};

verus! {

/// The accounts of the instruction, as far as its rules read them.
#[derive(Clone, Copy, Debug, PartialEq, Eq)]
pub struct WrapSol {
    pub memecoin_config: MemecoinConfig,
    pub global_config: GlobalConfig,
    /// The mint handed in as the wrapped SOL mint.
    pub wrapped_sol_mint: Pubkey,
}

/// What wrapping gives, given the wrapped SOL mint's address: the lamports
/// to wrap, or why it is refused.
pub open spec fn spec_wrap_outcome(ctx: WrapSol, wsol_mint: Seq<u8>) -> Result<u64, InstructionError> {
    let bps = ctx.global_config.launch_success_fee_bps as int;
    let total_funding_raise_amount = spec_tier_value(ctx.memecoin_config.funding_raise_tier);
    if ctx.memecoin_config.status != LaunchStatus::Succeed {
        Err(InstructionError::Custom(ErrorCode::OnlyWrapSolWhenLaunchSuccess))
    } else if ctx.wrapped_sol_mint@ != wsol_mint {
        Err(InstructionError::Custom(ErrorCode::WrongWSOLMint))
    } else if bps > 10000 || total_funding_raise_amount * (10000 - bps) > u64::MAX {
        Err(InstructionError::Custom(ErrorCode::CalculationError))
    } else {
        Ok(spec_bps_remainder(total_funding_raise_amount as int, bps) as u64)
    }
}

/// The lamports to wrap, given the wrapped SOL mint: what is left of the
/// lamports that the memecoin's funding tier raised once the launchpad's fee
/// rate is taken out.
///
/// The launch must have succeeded (a refusal reports
/// `OnlyWrapSolWhenLaunchSuccess`) and the mint handed in must be the
/// wrapped SOL mint. A fee rate above 10000 basis points, or a product that
/// does not fit in a `u64`, is a `CalculationError`.
pub fn handler(ctx: &WrapSol, wsol_mint: &Pubkey) -> (res: Result<u64, InstructionError>)
    ensures
        res == spec_wrap_outcome(*ctx, wsol_mint@),
        ctx.memecoin_config.status != LaunchStatus::Succeed ==> res == Err::<u64, InstructionError>(
            InstructionError::Custom(ErrorCode::OnlyWrapSolWhenLaunchSuccess),
        ),
        res is Ok ==> ctx.memecoin_config.status == LaunchStatus::Succeed && ctx.wrapped_sol_mint@
            == wsol_mint@,
        res matches Ok(v) ==> v * 10000 <= spec_tier_value(ctx.memecoin_config.funding_raise_tier) * (
        10000 - ctx.global_config.launch_success_fee_bps) < (v + 1) * 10000,
{
    proof {
        wrap_only_after_success(*ctx, wsol_mint@);
    }
    if ctx.memecoin_config.status != LaunchStatus::Succeed {
        return Err(InstructionError::Custom(ErrorCode::OnlyWrapSolWhenLaunchSuccess));
    }
    if !key_eq(&ctx.wrapped_sol_mint, wsol_mint) {
        return Err(InstructionError::Custom(ErrorCode::WrongWSOLMint));
    }
    let total_funding_raise_amount = ctx.memecoin_config.funding_raise_tier.value();
    let launch_success_fee_bps = ctx.global_config.launch_success_fee_bps as u64;
    match bps_remainder(total_funding_raise_amount, launch_success_fee_bps) {
        Ok(v) => Ok(v),
        Err(e) => Err(InstructionError::Custom(e)),
    }
}

/// Only the raised SOL of a launch that succeeded is wrapped: any other
/// sale, failed or still ongoing, is refused with
/// `OnlyWrapSolWhenLaunchSuccess`, and a wrap goes only into the wrapped SOL
/// mint. What is wrapped is the raised lamports times the basis points left
/// after the launchpad's fee rate, over 10000, rounded down.
pub proof fn wrap_only_after_success(ctx: WrapSol, wsol_mint: Seq<u8>)
    ensures
        ctx.memecoin_config.status != LaunchStatus::Succeed ==> spec_wrap_outcome(ctx, wsol_mint)
            == Err::<u64, InstructionError>(
            InstructionError::Custom(ErrorCode::OnlyWrapSolWhenLaunchSuccess),
        ),
        spec_wrap_outcome(ctx, wsol_mint) is Ok ==> ctx.memecoin_config.status == LaunchStatus::Succeed
            && ctx.wrapped_sol_mint@ == wsol_mint,
        ctx.memecoin_config.status == LaunchStatus::Succeed && ctx.wrapped_sol_mint@ != wsol_mint
            ==> spec_wrap_outcome(ctx, wsol_mint) == Err::<u64, InstructionError>(
            InstructionError::Custom(ErrorCode::WrongWSOLMint),
        ),
        ctx.memecoin_config.status == LaunchStatus::Succeed && ctx.wrapped_sol_mint@ == wsol_mint
            && ctx.global_config.launch_success_fee_bps <= 10000 ==> spec_wrap_outcome(ctx, wsol_mint) is Ok,
        ctx.global_config.launch_success_fee_bps > 10000 ==> spec_wrap_outcome(ctx, wsol_mint) is Err,
        spec_wrap_outcome(ctx, wsol_mint) matches Ok(v) ==> v * 10000 <= spec_tier_value(
            ctx.memecoin_config.funding_raise_tier,
        ) * (10000 - ctx.global_config.launch_success_fee_bps) < (v + 1) * 10000,
{
    let raised = spec_tier_value(ctx.memecoin_config.funding_raise_tier) as int;
    let kept = 10000 - ctx.global_config.launch_success_fee_bps;
    assert(raised <= 100_000_000_000);
    if kept >= 0 {
        assert(raised * kept <= 100_000_000_000 * 10000) by (nonlinear_arith)
            requires
                0 <= raised <= 100_000_000_000,
                0 <= kept <= 10000,
        ;
    }
    if spec_wrap_outcome(ctx, wsol_mint) is Ok {
        let x = raised * kept;
        assert(x >= 0) by (nonlinear_arith)
            requires
                raised >= 0,
                kept >= 0,
                x == raised * kept,
        ;
        assert((x / 10000) * 10000 <= x < (x / 10000 + 1) * 10000) by (nonlinear_arith)
            requires
                x >= 0,
        ;
    }
}

/// Wraps with the wrapped SOL mint's address parsed from its text, as
/// `handler` does. Nothing comes back if the text does not parse.
pub fn handler_for_wsol_mint(ctx: &WrapSol) -> (res: Option<Result<u64, InstructionError>>)
    ensures
        res is None <==> spec_pubkey_from_str(WSOL_MINT_ADDRESS@) is None,
        res matches Some(r) ==> r == spec_wrap_outcome(*ctx, spec_pubkey_from_str(WSOL_MINT_ADDRESS@)->0),
{
    match wsol_mint_pubkey() {
        Some(wsol_mint) => Some(handler(ctx, &wsol_mint)),
        None => None,
    }
}

} // verus!
