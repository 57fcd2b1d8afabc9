//! Buying a memecoin during its sale.

use vstd::prelude::*;

use crate::errors::{ErrorCode, InstructionError};
use crate::pubkey::Pubkey;
use crate::constants::MEMECOIN_TOTAL_SUPPLY;
use crate::state::{spec_tier_value, spec_token_price, token_price_times_half_supply, LaunchStatus, MemecoinConfig};

verus! {

/// How long a sale stays open after the memecoin was configured, in seconds.
pub const SALE_DURATION_SECS: u64 = 3600;

/// Ten to the power `n`.
pub open spec fn pow10(n: nat) -> nat
    decreases n,
{
    if n == 0 {
        1
    } else {
        10 * pow10((n - 1) as nat)
    }
}

/// The supply that the sale reckons with, in base units: the given supply
/// times ten to the mint's decimals.
pub open spec fn spec_total_supply(memecoin_total_supply: u64, decimals: u8) -> int {
    memecoin_total_supply * pow10(decimals as nat)
}

/// The accounts of a purchase, as far as the sale's rules read them, and the
/// time on the cluster's clock.
#[derive(Clone, Copy, Debug, PartialEq, Eq)]
pub struct BuyMemecoin {
    pub memecoin_config: MemecoinConfig,
    /// Decimals of the memecoin's mint.
    pub mint_decimals: u8,
    /// The signer, who buys.
    pub buyer: Pubkey,
    /// Memecoin not yet sold: the balance of the configuration's token
    /// account, in base units.
    pub memecoin_config_token_amount: u64,
    /// Unix time on the cluster's clock, in seconds.
    pub clock_unix_timestamp: i64,
}

/// What a purchase announces.
#[derive(Clone, Copy, Debug, PartialEq, Eq)]
pub struct MemecoinBought {
    pub buyer: Pubkey,
    pub buy_amount: u64,
    pub token_price: u64,
}

/// What an accepted purchase moves: the lamports that the buyer owes and the
/// memecoin that the buyer receives, and the announcement.
#[derive(Clone, Copy, Debug, PartialEq, Eq)]
pub struct BuyOrder {
    pub lamports_cost: u64,
    pub memecoin_amount: u64,
    pub event: MemecoinBought,
}

proof fn pow10_at_most_billion(n: nat)
    requires
        n <= 9,
    ensures
        1 <= pow10(n) <= 1_000_000_000,
    decreases n,
{
    reveal_with_fuel(pow10, 10);
}

/// Ten to the power of the mint's decimals, which must be at most 9.
fn decimal_scale(decimals: u8) -> (scale: u64)
    requires
        decimals <= 9,
    ensures
        scale == pow10(decimals as nat),
{
    let mut scale: u64 = 1;
    let mut i: u8 = 0;
    while i < decimals
        invariant
            i <= decimals <= 9,
            scale == pow10(i as nat),
        decreases decimals - i,
    {
        proof {
            pow10_at_most_billion((i + 1) as nat);
        }
        scale = scale * 10;
        i = i + 1;
    }
    scale
}

/// The time of the clock as the sale reads it.
pub open spec fn spec_now(ctx: BuyMemecoin) -> int {
    (ctx.clock_unix_timestamp as u64) as int
}

/// The supply that the sale reckons with: `MEMECOIN_TOTAL_SUPPLY` times ten
/// to the mint's decimals.
pub open spec fn spec_total(ctx: BuyMemecoin) -> int {
    spec_total_supply(MEMECOIN_TOTAL_SUPPLY, ctx.mint_decimals)
}

/// Memecoin sold so far: the supply less what the configuration still holds.
pub open spec fn spec_sold(ctx: BuyMemecoin) -> int {
    spec_total(ctx) - ctx.memecoin_config_token_amount
}

/// Half the supply, which is what the sale offers.
pub open spec fn spec_half(ctx: BuyMemecoin) -> int {
    spec_total(ctx) / 2
}

/// Why a purchase is refused before anything changes, if it is.
pub open spec fn spec_buy_refusal(ctx: BuyMemecoin, buy_amount: u64) -> Option<ErrorCode> {
    if ctx.memecoin_config.status != LaunchStatus::Ongoing {
        Some(ErrorCode::StatusNotOngoing)
    } else if spec_total(ctx) > u64::MAX {
        Some(ErrorCode::CalculationError)
    } else if spec_sold(ctx) < 0 {
        Some(ErrorCode::CalculationError)
    } else if spec_sold(ctx) + buy_amount > spec_half(ctx) {
        Some(ErrorCode::UnsoldTokenInsufficient)
    } else {
        None
    }
}

/// Whether the sale's hour has run out.
pub open spec fn spec_sale_closed(ctx: BuyMemecoin) -> bool {
    spec_now(ctx) >= ctx.memecoin_config.created_time + SALE_DURATION_SECS
}

/// The price of one base unit of the memecoin, in lamports.
pub open spec fn spec_price(ctx: BuyMemecoin) -> u64 {
    spec_token_price(ctx.memecoin_config.funding_raise_tier)
}

/// Whether a purchase is accepted.
pub open spec fn spec_buy_accepted(ctx: BuyMemecoin, buy_amount: u64) -> bool {
    &&& spec_buy_refusal(ctx, buy_amount) is None
    &&& !spec_sale_closed(ctx)
    &&& buy_amount * spec_price(ctx) <= u64::MAX
}

/// The sale's state after a purchase is tried: unchanged when the purchase
/// is refused at once; once the hour has run out, succeeded if exactly half
/// the supply was sold and failed otherwise; else succeeded if the purchase
/// sells exactly the remaining half, and unchanged otherwise.
pub open spec fn spec_status_after(ctx: BuyMemecoin, buy_amount: u64) -> LaunchStatus {
    if spec_buy_refusal(ctx, buy_amount) is Some {
        ctx.memecoin_config.status
    } else if spec_sale_closed(ctx) {
        if spec_sold(ctx) == spec_half(ctx) {
            LaunchStatus::Succeed
        } else {
            LaunchStatus::Failed
        }
    } else if spec_sold(ctx) + buy_amount == spec_half(ctx) {
        LaunchStatus::Succeed
    } else {
        ctx.memecoin_config.status
    }
}

/// Whether a purchase stays within the ranges of its arithmetic: ten to the
/// power of the mint's decimals fits in an `i32` (at most 9 decimals), the
/// memecoin sold plus the purchase fits in a `u64`, and so does the end of the
/// sale's hour; each only where the purchase gets as far as computing it.
pub open spec fn spec_buy_in_range(ctx: BuyMemecoin, buy_amount: u64) -> bool {
    &&& ctx.memecoin_config.status == LaunchStatus::Ongoing ==> ctx.mint_decimals <= 9
    &&& ctx.memecoin_config.status == LaunchStatus::Ongoing && spec_total(ctx) <= u64::MAX
        && spec_sold(ctx) >= 0 ==> spec_sold(ctx) + buy_amount <= u64::MAX
    &&& spec_buy_refusal(ctx, buy_amount) is None ==> ctx.memecoin_config.created_time
        + SALE_DURATION_SECS <= u64::MAX
}

/// Tells whether a purchase stays within the ranges of its arithmetic; a
/// purchase outside them cannot be carried out.
pub fn buy_in_range(ctx: &BuyMemecoin, buy_amount: u64) -> (in_range: bool)
    ensures
        in_range == spec_buy_in_range(*ctx, buy_amount),
{
    if ctx.memecoin_config.status != LaunchStatus::Ongoing {
        return true;
    }
    if ctx.mint_decimals > 9 {
        return false;
    }
    let total_supply = match MEMECOIN_TOTAL_SUPPLY.checked_mul(decimal_scale(ctx.mint_decimals)) {
        Some(t) => t,
        None => return true,
    };
    let sold_amount = match total_supply.checked_sub(ctx.memecoin_config_token_amount) {
        Some(s) => s,
        None => return true,
    };
    let with_purchase = match sold_amount.checked_add(buy_amount) {
        Some(v) => v,
        None => return false,
    };
    if with_purchase > total_supply / 2 {
        return true;
    }
    ctx.memecoin_config.created_time.checked_add(SALE_DURATION_SECS).is_some()
}

/// A purchase of `buy_amount` base units at the price that the memecoin's
/// configuration quotes.
///
/// The sale must be ongoing, and the purchase may not take the memecoin sold
/// past half the supply. Once the sale's hour has run out, the purchase is
/// refused as `SaleClosed`, and the sale is marked succeeded if exactly half
/// the supply was sold and failed otherwise. A purchase that sells exactly
/// the remaining half marks the sale succeeded. The buyer owes `buy_amount`
/// times the price in lamports; a cost past `u64::MAX` is a
/// `CalculationError`. Only the sale's state changes, and only forward: from
/// ongoing to succeeded, or to failed when the hour has run out.
pub fn handler(ctx: &mut BuyMemecoin, buy_amount: u64) -> (res: Result<BuyOrder, InstructionError>)
    requires
        spec_buy_in_range(*old(ctx), buy_amount),
    ensures
        *final(ctx) == (BuyMemecoin {
            memecoin_config: MemecoinConfig {
                status: spec_status_after(*old(ctx), buy_amount),
                ..old(ctx).memecoin_config
            },
            ..*old(ctx)
        }),
        res is Ok <==> spec_buy_accepted(*old(ctx), buy_amount),
        spec_buy_accepted(*old(ctx), buy_amount) ==> res == Ok::<BuyOrder, InstructionError>(
            BuyOrder {
                lamports_cost: (buy_amount * spec_price(*old(ctx))) as u64,
                memecoin_amount: buy_amount,
                event: MemecoinBought {
                    buyer: old(ctx).buyer,
                    buy_amount,
                    token_price: spec_price(*old(ctx)),
                },
            },
        ),
        spec_buy_refusal(*old(ctx), buy_amount) matches Some(e) ==> res == Err::<
            BuyOrder,
            InstructionError,
        >(InstructionError::Custom(e)),
        spec_buy_refusal(*old(ctx), buy_amount) is None && spec_sale_closed(*old(ctx)) ==> res
            == Err::<BuyOrder, InstructionError>(InstructionError::Custom(ErrorCode::SaleClosed)),
        spec_buy_refusal(*old(ctx), buy_amount) is None && !spec_sale_closed(*old(ctx)) && buy_amount
            * spec_price(*old(ctx)) > u64::MAX ==> res == Err::<BuyOrder, InstructionError>(
            InstructionError::Custom(ErrorCode::CalculationError),
        ),
        res is Ok ==> spec_sold(*old(ctx)) + buy_amount <= spec_half(*old(ctx)),
        old(ctx).memecoin_config.status != LaunchStatus::Ongoing ==> final(ctx).memecoin_config.status
            == old(ctx).memecoin_config.status,
        res is Ok ==> old(ctx).memecoin_config.status == LaunchStatus::Ongoing && (final(ctx).memecoin_config.status == LaunchStatus::Ongoing || final(ctx).memecoin_config.status
            == LaunchStatus::Succeed),
        final(ctx).memecoin_config.status == LaunchStatus::Failed ==> old(ctx).memecoin_config.status == LaunchStatus::Failed || res == Err::<BuyOrder, InstructionError>(
            InstructionError::Custom(ErrorCode::SaleClosed),
        ),
        res matches Ok(o) ==> {
            &&& o.memecoin_amount == buy_amount
            &&& o.event.buy_amount == buy_amount
            &&& o.event.buyer == old(ctx).buyer
            &&& o.event.token_price * (MEMECOIN_TOTAL_SUPPLY / 2) == spec_tier_value(
                old(ctx).memecoin_config.funding_raise_tier,
            )
            &&& o.lamports_cost == buy_amount * o.event.token_price
            &&& (final(ctx).memecoin_config.status == LaunchStatus::Succeed <==> spec_sold(*old(ctx))
                + buy_amount == spec_half(*old(ctx)))
            &&& (final(ctx).memecoin_config.status != LaunchStatus::Succeed
                ==> final(ctx).memecoin_config.status == LaunchStatus::Ongoing)
        },
        spec_buy_refusal(*old(ctx), buy_amount) is None && spec_sale_closed(*old(ctx)) ==> {
            &&& (final(ctx).memecoin_config.status == LaunchStatus::Succeed <==> spec_sold(*old(ctx))
                == spec_half(*old(ctx)))
            &&& (final(ctx).memecoin_config.status == LaunchStatus::Failed <==> spec_sold(*old(ctx))
                != spec_half(*old(ctx)))
        },
{
    proof {
        purchase_charges_the_tier_price(*ctx, buy_amount);
        accepted_purchase_succeeds_exactly_at_half(*ctx, buy_amount);
        if spec_buy_refusal(*ctx, buy_amount) is None && spec_sale_closed(*ctx) {
            late_purchase_settles_the_sale_by_sales_alone(*ctx, buy_amount, buy_amount);
        }
    }
    if ctx.memecoin_config.status != LaunchStatus::Ongoing {
        return Err(InstructionError::Custom(ErrorCode::StatusNotOngoing));
    }
    let memecoin_config_token_balance = ctx.memecoin_config_token_amount;
    let memecoin_decimal = ctx.mint_decimals;
    let total_supply = match MEMECOIN_TOTAL_SUPPLY.checked_mul(decimal_scale(memecoin_decimal)) {
        Some(t) => t,
        None => return Err(InstructionError::Custom(ErrorCode::CalculationError)),
    };
    let sold_amount = match total_supply.checked_sub(memecoin_config_token_balance) {
        Some(s) => s,
        None => return Err(InstructionError::Custom(ErrorCode::CalculationError)),
    };
    if !(sold_amount + buy_amount <= total_supply / 2) {
        return Err(InstructionError::Custom(ErrorCode::UnsoldTokenInsufficient));
    }
    let current_timestamp = ctx.clock_unix_timestamp as u64;
    let memecoin_created_time = ctx.memecoin_config.created_time;
    if current_timestamp >= memecoin_created_time + SALE_DURATION_SECS {
        if sold_amount == total_supply / 2 {
            match ctx.memecoin_config.set_memecoin_status(LaunchStatus::Succeed) {
                Ok(()) => {},
                Err(e) => return Err(InstructionError::Custom(e)),
            }
        } else {
            match ctx.memecoin_config.set_memecoin_status(LaunchStatus::Failed) {
                Ok(()) => {},
                Err(e) => return Err(InstructionError::Custom(e)),
            }
        }
        return Err(InstructionError::Custom(ErrorCode::SaleClosed));
    } else {
        if sold_amount + buy_amount == total_supply / 2 {
            match ctx.memecoin_config.set_memecoin_status(LaunchStatus::Succeed) {
                Ok(()) => {},
                Err(e) => return Err(InstructionError::Custom(e)),
            }
        }
    }
    // User pay for the memecoin by lamports
    let token_price = match ctx.memecoin_config.token_price() {
        Ok(p) => p,
        Err(e) => return Err(InstructionError::Custom(e)),
    };
    let cost = match buy_amount.checked_mul(token_price) {
        Some(c) => c,
        None => return Err(InstructionError::Custom(ErrorCode::CalculationError)),
    };
    Ok(BuyOrder {
        lamports_cost: cost,
        memecoin_amount: buy_amount,
        event: MemecoinBought { buyer: ctx.buyer, buy_amount, token_price },
    })
}

/// Once at most half the supply is sold, it stays so whatever a purchase
/// does: an accepted purchase moves `buy_amount` out of the configuration's
/// memecoin, a refused one moves none, and either way the memecoin sold
/// stays within half the supply.
pub proof fn purchase_keeps_sales_within_half(ctx: BuyMemecoin, buy_amount: u64)
    requires
        0 <= spec_sold(ctx) <= spec_half(ctx),
    ensures
        ({
            let moved = if spec_buy_accepted(ctx, buy_amount) {
                buy_amount as int
            } else {
                0
            };
            let after = BuyMemecoin {
                memecoin_config_token_amount: (ctx.memecoin_config_token_amount - moved) as u64,
                ..ctx
            };
            &&& moved <= ctx.memecoin_config_token_amount
            &&& 0 <= spec_sold(after) <= spec_half(after)
        }),
{
    assert(spec_total(ctx) >= 0) by (nonlinear_arith)
        requires
            spec_total(ctx) == MEMECOIN_TOTAL_SUPPLY * pow10(ctx.mint_decimals as nat),
    ;
}

/// A purchase moves the sale's state only forward: a sale that is not
/// ongoing keeps its state; an accepted purchase leaves the sale ongoing or
/// succeeded; and a sale is marked failed only by a purchase that finds the
/// sale's hour run out.
pub proof fn purchase_moves_status_only_forward(ctx: BuyMemecoin, buy_amount: u64)
    ensures
        ctx.memecoin_config.status != LaunchStatus::Ongoing ==> spec_status_after(ctx, buy_amount)
            == ctx.memecoin_config.status,
        spec_buy_accepted(ctx, buy_amount) ==> ctx.memecoin_config.status == LaunchStatus::Ongoing
            && (spec_status_after(ctx, buy_amount) == LaunchStatus::Ongoing || spec_status_after(
            ctx,
            buy_amount,
        ) == LaunchStatus::Succeed),
        spec_status_after(ctx, buy_amount) == LaunchStatus::Failed ==> ctx.memecoin_config.status
            == LaunchStatus::Failed || (spec_buy_refusal(ctx, buy_amount) is None && spec_sale_closed(
            ctx,
        )),
{
}

/// A purchase is priced by the memecoin's own funding tier: the price of a
/// base unit times the half of the supply that is sold is exactly what the
/// tier raises, and an accepted purchase costs its amount times that price.
pub proof fn purchase_charges_the_tier_price(ctx: BuyMemecoin, buy_amount: u64)
    ensures
        spec_price(ctx) * (MEMECOIN_TOTAL_SUPPLY / 2) == spec_tier_value(
            ctx.memecoin_config.funding_raise_tier,
        ),
        spec_buy_accepted(ctx, buy_amount) ==> buy_amount * spec_price(ctx) <= u64::MAX,
{
    token_price_times_half_supply(ctx.memecoin_config.funding_raise_tier);
}

/// An accepted purchase marks the sale succeeded exactly when it brings the
/// memecoin sold to half the supply, and otherwise leaves it ongoing.
pub proof fn accepted_purchase_succeeds_exactly_at_half(ctx: BuyMemecoin, buy_amount: u64)
    ensures
        spec_buy_accepted(ctx, buy_amount) ==> (spec_status_after(ctx, buy_amount)
            == LaunchStatus::Succeed <==> spec_sold(ctx) + buy_amount == spec_half(ctx)),
        spec_buy_accepted(ctx, buy_amount) && spec_sold(ctx) + buy_amount != spec_half(ctx)
            ==> spec_status_after(ctx, buy_amount) == LaunchStatus::Ongoing,
{
}

/// A purchase that finds the sale's hour run out settles the sale by what
/// was sold before it alone: succeeded exactly when half the supply was
/// sold, failed otherwise, and the same whatever amount the refused
/// purchase asked for.
pub proof fn late_purchase_settles_the_sale_by_sales_alone(
    ctx: BuyMemecoin,
    buy_amount: u64,
    other_buy_amount: u64,
)
    requires
        spec_sale_closed(ctx),
        spec_buy_refusal(ctx, buy_amount) is None,
        spec_buy_refusal(ctx, other_buy_amount) is None,
    ensures
        spec_status_after(ctx, buy_amount) == spec_status_after(ctx, other_buy_amount),
        spec_status_after(ctx, buy_amount) == LaunchStatus::Succeed <==> spec_sold(ctx) == spec_half(
            ctx,
        ),
        spec_status_after(ctx, buy_amount) == LaunchStatus::Failed <==> spec_sold(ctx) != spec_half(
            ctx,
        ),
        !spec_buy_accepted(ctx, buy_amount),
{
}

/// The sale's rules for a purchase, in terms of the supply, the memecoin
/// still held and the clock: only an ongoing sale sells; more memecoin held
/// than the supply is a `CalculationError`; a purchase may not take the
/// memecoin sold past half the supply; and a purchase within those bounds is
/// accepted exactly when it comes before the end of the sale's hour and its
/// cost fits in a `u64`. A purchase refused before those bounds are met
/// leaves the sale's state as it was.
pub proof fn purchase_follows_the_sale_rules(ctx: BuyMemecoin, buy_amount: u64)
    ensures
        ({
            let total = spec_total(ctx);
            let sold = total - ctx.memecoin_config_token_amount;
            let ongoing = ctx.memecoin_config.status == LaunchStatus::Ongoing;
            let within = ongoing && total <= u64::MAX && 0 <= sold && sold + buy_amount <= total / 2;
            let in_time = (ctx.clock_unix_timestamp as u64) < ctx.memecoin_config.created_time
                + SALE_DURATION_SECS;
            &&& !ongoing ==> spec_buy_refusal(ctx, buy_amount) == Some(ErrorCode::StatusNotOngoing)
                && spec_status_after(ctx, buy_amount) == ctx.memecoin_config.status
            &&& ongoing && total <= u64::MAX && sold < 0 ==> spec_buy_refusal(ctx, buy_amount) == Some(
                ErrorCode::CalculationError,
            )
            &&& ongoing && total <= u64::MAX && 0 <= sold && sold + buy_amount > total / 2
                ==> spec_buy_refusal(ctx, buy_amount) == Some(ErrorCode::UnsoldTokenInsufficient)
            &&& spec_buy_refusal(ctx, buy_amount) is None <==> within
            &&& spec_buy_accepted(ctx, buy_amount) <==> within && in_time && buy_amount * spec_price(ctx)
                <= u64::MAX
            &&& !within ==> spec_status_after(ctx, buy_amount) == ctx.memecoin_config.status
            &&& SALE_DURATION_SECS == 3600
        }),
{
}

} // verus!
