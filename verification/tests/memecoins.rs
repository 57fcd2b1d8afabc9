use memecoin::errors::{ErrorCode, InstructionError};
use memecoin::instructions::buy_memecoin::{self, BuyMemecoin, BuyOrder, MemecoinBought};
use memecoin::instructions::create_memecoin_config::{self, CreateMemecoinConfig};
use memecoin::constants::MEMECOIN_TOTAL_SUPPLY;
use memecoin::instructions::mint_memecoin::{self, MintMemecoin, MEMECOIN_DECIMALS};
use memecoin::seeds::find_memecoin_config_address;
use memecoin::state::{funding_raise_tier_code, funding_raise_tier_from_code};
use memecoin::{CreatorMemecoinCounter, FundingRaiseTier, GlobalConfig, LaunchStatus, MemecoinConfig, Pubkey};

fn key(b: u8) -> Pubkey {
    Pubkey::new_from_array([b; 32])
}

fn global() -> GlobalConfig {
    GlobalConfig {
        admin: key(1),
        create_memecoin_fee_receiver: key(2),
        launch_success_fee_receiver: key(3),
        create_memecoin_fee: 30_000_000,
        launch_success_fee_bps: 175,
    }
}

fn program_id() -> Pubkey {
    key(77)
}

fn config_address(count: u32) -> Pubkey {
    find_memecoin_config_address(&key(8), count, &program_id()).unwrap().0
}

fn create_ctx(count: u32, fee_receiver: Pubkey) -> CreateMemecoinConfig {
    CreateMemecoinConfig {
        creator_memecoin_counter: CreatorMemecoinCounter { count },
        memecoin_config: MemecoinConfig::default(),
        memecoin_config_address: config_address(count),
        program_id: program_id(),
        create_memecoin_fee_receiver: fee_receiver,
        creator: key(8),
        global_config: global(),
        clock_unix_timestamp: 1_700_000_000,
    }
}

#[test]
fn tier_codes() {
    assert_eq!(funding_raise_tier_from_code(0), Ok(FundingRaiseTier::TwentySol));
    assert_eq!(funding_raise_tier_from_code(1), Ok(FundingRaiseTier::FiftySol));
    assert_eq!(funding_raise_tier_from_code(2), Ok(FundingRaiseTier::OneHundredSol));
    assert_eq!(funding_raise_tier_from_code(3), Err(ErrorCode::InvalidFundingRaiseTier));
    assert_eq!(funding_raise_tier_from_code(255), Err(ErrorCode::InvalidFundingRaiseTier));
    for code in 0u8..3 {
        assert_eq!(funding_raise_tier_code(funding_raise_tier_from_code(code).unwrap()), code);
    }
}

#[test]
fn creating_a_memecoin_records_it_and_counts_it() {
    let mut ctx = create_ctx(4, key(2));
    assert_eq!(create_memecoin_config::handler(&mut ctx, 1), Ok(()));
    assert_eq!(
        ctx.memecoin_config,
        MemecoinConfig {
            creator: key(8),
            creator_memecoin_index: 4,
            created_time: 1_700_000_000,
            status: LaunchStatus::Ongoing,
            funding_raise_tier: FundingRaiseTier::FiftySol,
        }
    );
    assert_eq!(ctx.creator_memecoin_counter.count, 5);
}

#[test]
fn successive_memecoins_get_successive_indexes() {
    let mut ctx = create_ctx(0, key(2));
    assert_eq!(create_memecoin_config::handler(&mut ctx, 0), Ok(()));
    let first = ctx.memecoin_config.creator_memecoin_index;
    ctx.memecoin_config = MemecoinConfig::default();
    ctx.memecoin_config_address = config_address(1);
    assert_eq!(create_memecoin_config::handler(&mut ctx, 2), Ok(()));
    let second = ctx.memecoin_config.creator_memecoin_index;
    assert_eq!((first, second), (0, 1));
    assert_eq!(ctx.creator_memecoin_counter.count, 2);
}

#[test]
fn creating_with_unknown_tier_is_refused() {
    let mut ctx = create_ctx(4, key(2));
    let before = ctx;
    assert_eq!(
        create_memecoin_config::handler(&mut ctx, 3),
        Err(InstructionError::Custom(ErrorCode::InvalidFundingRaiseTier))
    );
    assert_eq!(ctx, before);
}

#[test]
fn creating_with_wrong_fee_receiver_is_refused() {
    let mut ctx = create_ctx(4, key(9));
    let before = ctx;
    assert_eq!(create_memecoin_config::handler(&mut ctx, 0), Err(InstructionError::ConstraintAddress));
    assert_eq!(ctx, before);
}

#[test]
fn creating_at_a_wrong_address_is_refused() {
    let mut ctx = create_ctx(4, key(2));
    ctx.memecoin_config_address = config_address(5);
    let before = ctx;
    assert_eq!(create_memecoin_config::handler(&mut ctx, 0), Err(InstructionError::ConstraintSeeds));
    assert_eq!(ctx, before);
}

#[test]
fn creating_when_an_address_is_derivable() {
    let mut ctx = create_ctx(4, key(2));
    assert_eq!(create_memecoin_config::handler_when_address_derivable(&mut ctx, 2), Some(Ok(())));
    assert_eq!(ctx.memecoin_config.funding_raise_tier, FundingRaiseTier::OneHundredSol);
    assert_eq!(ctx.creator_memecoin_counter.count, 5);
}

#[test]
fn created_tier_code_is_announced_at_minting() {
    for code in 0u8..3 {
        let mut ctx = create_ctx(0, key(2));
        assert_eq!(create_memecoin_config::handler(&mut ctx, code), Ok(()));
        let mut mint = MintMemecoin {
            memecoin_config: ctx.memecoin_config,
            memecoin_config_key: ctx.memecoin_config_address,
            creator: key(8),
            mint: key(11),
            destination: key(12),
            mint_supply: None,
        };
        let m = mint_memecoin::handler(&mut mint, "n", "s", "u", "d", "w", "t", "x").unwrap();
        assert_eq!(m.event.funding_raise_tier, code);
    }
}

#[test]
fn negative_clock_reads_as_wrapped_time() {
    let mut ctx = create_ctx(0, key(2));
    ctx.clock_unix_timestamp = -1;
    assert_eq!(create_memecoin_config::handler(&mut ctx, 0), Ok(()));
    assert_eq!(ctx.memecoin_config.created_time, u64::MAX);
}

#[test]
fn minting_describes_the_memecoin() {
    let config = MemecoinConfig {
        creator: key(8),
        creator_memecoin_index: 0,
        created_time: 77,
        status: LaunchStatus::Ongoing,
        funding_raise_tier: FundingRaiseTier::OneHundredSol,
    };
    let mut ctx = MintMemecoin {
        memecoin_config: config,
        memecoin_config_key: key(10),
        creator: key(8),
        mint: key(11),
        destination: key(12),
        mint_supply: None,
    };
    let m = mint_memecoin::handler(&mut ctx, "Doge", "DOGE", "https://x/doge.json", "a dog", "https://doge", "@tg", "@tw")
        .unwrap();
    assert_eq!(m.metadata.name, "Doge");
    assert_eq!(m.metadata.symbol, "DOGE");
    assert_eq!(m.metadata.uri, "https://x/doge.json");
    assert_eq!(m.metadata.seller_fee_basis_points, 0);
    assert!(!m.metadata.names_creators && !m.metadata.names_collection && !m.metadata.names_uses);
    assert!(m.metadata.is_mutable && m.metadata.update_authority_is_signer);
    assert!(!m.metadata.names_collection_details);
    assert_eq!(m.mint_amount, MEMECOIN_TOTAL_SUPPLY);
    assert_eq!(m.mint_amount, 1_000_000_000);
    assert_eq!(m.event.creator, key(8));
    assert_eq!(m.event.created_time, 77);
    assert_eq!(m.event.memecoin_config, key(10));
    assert_eq!(m.event.mint, key(11));
    assert_eq!(m.event.destination, key(12));
    assert_eq!(m.event.description, "a dog");
    assert_eq!(m.event.website, "https://doge");
    assert_eq!(m.event.telegram, "@tg");
    assert_eq!(m.event.twitter, "@tw");
    assert_eq!(m.event.decimal, MEMECOIN_DECIMALS);
    assert_eq!(m.event.decimal, 6);
    assert_eq!(m.event.funding_raise_tier, 2);
    assert_eq!(ctx.mint_supply, Some(1_000_000_000));
}

#[test]
fn a_memecoin_is_minted_once() {
    let config = MemecoinConfig {
        creator: key(8),
        creator_memecoin_index: 0,
        created_time: 77,
        status: LaunchStatus::Ongoing,
        funding_raise_tier: FundingRaiseTier::TwentySol,
    };
    let mut ctx = MintMemecoin {
        memecoin_config: config,
        memecoin_config_key: key(10),
        creator: key(8),
        mint: key(11),
        destination: key(12),
        mint_supply: None,
    };
    assert!(mint_memecoin::handler(&mut ctx, "a", "A", "u", "d", "w", "t", "x").is_ok());
    let after_first = ctx;
    let again = mint_memecoin::handler(&mut ctx, "b", "B", "v", "e", "y", "s", "z");
    assert_eq!(again.unwrap_err(), InstructionError::AccountAlreadyInUse);
    assert_eq!(ctx, after_first);
    assert_eq!(ctx.mint_supply, Some(MEMECOIN_TOTAL_SUPPLY));
}

fn sale(status: LaunchStatus, unsold: u64, now: i64) -> BuyMemecoin {
    BuyMemecoin {
        memecoin_config: MemecoinConfig {
            creator: key(8),
            creator_memecoin_index: 0,
            created_time: 1_000,
            status,
            funding_raise_tier: FundingRaiseTier::TwentySol,
        },
        mint_decimals: 0,
        buyer: key(20),
        memecoin_config_token_amount: unsold,
        clock_unix_timestamp: now,
    }
}

// With no decimals the sale reckons with 1_000_000_000 base units, half of
// which are for sale, at 20 SOL / 500_000_000 = 40 lamports each.
const TOTAL: u64 = 1_000_000_000;
const HALF: u64 = 500_000_000;

#[test]
fn token_price_of_each_tier() {
    let mut config = sale(LaunchStatus::Ongoing, TOTAL, 0).memecoin_config;
    assert_eq!(config.token_price(), Ok(40));
    config.funding_raise_tier = FundingRaiseTier::FiftySol;
    assert_eq!(config.token_price(), Ok(100));
    config.funding_raise_tier = FundingRaiseTier::OneHundredSol;
    assert_eq!(config.token_price(), Ok(200));
    assert_eq!(FundingRaiseTier::TwentySol.value(), 20_000_000_000);
}

#[test]
fn buying_within_the_hour() {
    let mut ctx = sale(LaunchStatus::Ongoing, TOTAL, 1_500);
    let res = buy_memecoin::handler(&mut ctx, 100_000_000);
    assert_eq!(
        res,
        Ok(BuyOrder {
            lamports_cost: 4_000_000_000,
            memecoin_amount: 100_000_000,
            event: MemecoinBought { buyer: key(20), buy_amount: 100_000_000, token_price: 40 },
        })
    );
    assert_eq!(ctx.memecoin_config.status, LaunchStatus::Ongoing);
}

#[test]
fn buying_with_six_decimals() {
    // The sale reckons with 10^15 base units, half of them for sale.
    let mut ctx = sale(LaunchStatus::Ongoing, 1_000_000_000_000_000, 1_500);
    ctx.mint_decimals = 6;
    assert_eq!(buy_memecoin::handler(&mut ctx, 7).map(|o| o.lamports_cost), Ok(280));
    let mut ctx = sale(LaunchStatus::Ongoing, 500_000_000_000_001, 1_500);
    ctx.mint_decimals = 6;
    assert!(buy_memecoin::handler(&mut ctx, 1).is_ok());
    assert_eq!(ctx.memecoin_config.status, LaunchStatus::Succeed);
}

#[test]
fn buying_the_last_of_the_half_succeeds_the_launch() {
    let mut ctx = sale(LaunchStatus::Ongoing, 600_000_000, 1_500);
    let res = buy_memecoin::handler(&mut ctx, 100_000_000);
    assert!(res.is_ok());
    assert_eq!(ctx.memecoin_config.status, LaunchStatus::Succeed);
}

#[test]
fn buying_past_the_half_is_refused() {
    let mut ctx = sale(LaunchStatus::Ongoing, 600_000_000, 1_500);
    let before = ctx;
    assert_eq!(
        buy_memecoin::handler(&mut ctx, 100_000_001),
        Err(InstructionError::Custom(ErrorCode::UnsoldTokenInsufficient))
    );
    assert_eq!(ctx, before);
}

#[test]
fn sales_stay_within_half_over_many_purchases() {
    let mut ctx = sale(LaunchStatus::Ongoing, TOTAL, 1_500);
    for amount in [200_000_000u64, 200_000_000, 200_000_000, 100_000_000, 1] {
        if let Ok(order) = buy_memecoin::handler(&mut ctx, amount) {
            ctx.memecoin_config_token_amount -= order.memecoin_amount;
        }
        assert!(TOTAL - ctx.memecoin_config_token_amount <= HALF);
    }
    assert_eq!(ctx.memecoin_config_token_amount, HALF);
    assert_eq!(ctx.memecoin_config.status, LaunchStatus::Succeed);
}

#[test]
fn buying_when_not_ongoing_is_refused() {
    for status in [LaunchStatus::Succeed, LaunchStatus::Failed] {
        let mut ctx = sale(status, TOTAL, 1_500);
        let before = ctx;
        assert_eq!(
            buy_memecoin::handler(&mut ctx, 1),
            Err(InstructionError::Custom(ErrorCode::StatusNotOngoing))
        );
        assert_eq!(ctx, before);
    }
}

#[test]
fn buying_after_the_hour_closes_the_sale() {
    let mut ctx = sale(LaunchStatus::Ongoing, 600_000_000, 4_600);
    assert_eq!(
        buy_memecoin::handler(&mut ctx, 1),
        Err(InstructionError::Custom(ErrorCode::SaleClosed))
    );
    assert_eq!(ctx.memecoin_config.status, LaunchStatus::Failed);

    let mut ctx = sale(LaunchStatus::Ongoing, HALF, 4_600);
    assert_eq!(
        buy_memecoin::handler(&mut ctx, 0),
        Err(InstructionError::Custom(ErrorCode::SaleClosed))
    );
    assert_eq!(ctx.memecoin_config.status, LaunchStatus::Succeed);
}

#[test]
fn buying_just_before_the_hour_is_open() {
    let mut ctx = sale(LaunchStatus::Ongoing, TOTAL, 4_599);
    assert!(buy_memecoin::handler(&mut ctx, 1).is_ok());
}

#[test]
fn more_unsold_than_the_supply_is_a_calculation_error() {
    let mut ctx = sale(LaunchStatus::Ongoing, TOTAL + 1, 1_500);
    assert_eq!(
        buy_memecoin::handler(&mut ctx, 1),
        Err(InstructionError::Custom(ErrorCode::CalculationError))
    );
}

#[test]
fn purchase_range() {
    let ctx = sale(LaunchStatus::Ongoing, TOTAL, 1_500);
    assert!(buy_memecoin::buy_in_range(&ctx, u64::MAX - 1));
    let mut deep = ctx;
    deep.mint_decimals = 10;
    assert!(!buy_memecoin::buy_in_range(&deep, 1));
    let mut closed = ctx;
    closed.memecoin_config.status = LaunchStatus::Failed;
    closed.mint_decimals = 10;
    assert!(buy_memecoin::buy_in_range(&closed, 1));
    let mut late = ctx;
    late.memecoin_config.created_time = u64::MAX - 10;
    assert!(!buy_memecoin::buy_in_range(&late, 1));
}
