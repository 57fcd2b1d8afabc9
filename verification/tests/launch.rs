use memecoin::errors::{ErrorCode, InstructionError};
use memecoin::fees::{bps_remainder, bps_share};
use memecoin::instructions::create_raydium_pool::{self, CreateRaydiumPool, RaydiumPoolLaunch};
use memecoin::instructions::create_raydium_pool_by_admin::{self, AdminPoolHandover, CreateRaydiumPoolByAdmin};
use memecoin::instructions::transfer_lamports;
use memecoin::instructions::wrap_sol::{self, WrapSol};
use memecoin::{FundingRaiseTier, GlobalConfig, LaunchStatus, MemecoinConfig, Pubkey};

const SOL: u64 = 1_000_000_000;

fn key(b: u8) -> Pubkey {
    Pubkey::new_from_array([b; 32])
}

fn wsol() -> Pubkey {
    key(0x55)
}

fn global(bps: u16) -> GlobalConfig {
    GlobalConfig {
        admin: key(1),
        create_memecoin_fee_receiver: key(2),
        launch_success_fee_receiver: key(3),
        create_memecoin_fee: 30_000_000,
        launch_success_fee_bps: bps,
    }
}

fn memecoin(status: LaunchStatus) -> MemecoinConfig {
    MemecoinConfig {
        creator: key(8),
        creator_memecoin_index: 0,
        created_time: 1_000,
        status,
        funding_raise_tier: FundingRaiseTier::TwentySol,
    }
}

#[test]
fn fee_share_and_remainder() {
    assert_eq!(bps_share(20 * SOL, 175), Ok(350_000_000));
    assert_eq!(bps_remainder(20 * SOL, 175), Ok(19_650_000_000));
    assert_eq!(bps_share(9_999, 1), Ok(0));
    assert_eq!(bps_remainder(9_999, 1), Ok(9_998));
    assert_eq!(bps_share(u64::MAX, 2), Err(ErrorCode::CalculationError));
    assert_eq!(bps_remainder(100, 10001), Err(ErrorCode::CalculationError));
    assert_eq!(bps_remainder(u64::MAX, 1), Err(ErrorCode::CalculationError));
}

#[test]
fn share_and_remainder_lose_at_most_one_unit() {
    for amount in [0u64, 1, 7, 9_999, 10_001, 123_456_789, 20 * SOL] {
        for bps in [0u64, 1, 175, 5_000, 9_999, 10_000] {
            let share = bps_share(amount, bps).unwrap();
            let rest = bps_remainder(amount, bps).unwrap();
            assert!(share + rest <= amount);
            assert!(share + rest + 1 >= amount);
        }
    }
}

#[test]
fn lamport_transfers() {
    assert_eq!(transfer_lamports(10, 5, 4), Ok((6, 9)));
    assert_eq!(transfer_lamports(10, 5, 11), Err(InstructionError::ArithmeticOverflow));
    assert_eq!(transfer_lamports(10, u64::MAX, 1), Err(InstructionError::ArithmeticOverflow));
    assert_eq!(transfer_lamports(10, u64::MAX, 0), Ok((10, u64::MAX)));
}

fn pool_ctx(token_0_mint: Pubkey, amount_0: u64, token_1_mint: Pubkey, amount_1: u64) -> CreateRaydiumPool {
    CreateRaydiumPool {
        memecoin_config: memecoin(LaunchStatus::Succeed),
        global_config: global(175),
        token_0_mint,
        token_1_mint,
        memecoin_config_token_0_amount: amount_0,
        memecoin_config_token_1_amount: amount_1,
        launch_success_fee_receiver: key(3),
        clock_unix_timestamp: 5_000,
    }
}

#[test]
fn pool_with_wsol_first() {
    let ctx = pool_ctx(wsol(), 20 * SOL, key(40), 1_000_000);
    assert_eq!(
        create_raydium_pool::handler(&ctx, &wsol()),
        Ok(RaydiumPoolLaunch {
            init_amount_0: 20 * SOL,
            init_amount_1: 982_500,
            open_time: 5_000,
            initialize_pool: true,
            launch_success_fee_sol_amount: 350_000_000,
            launch_success_fee_memecoin_amount: 17_500,
            memecoin_fee_from_token_1: true,
        })
    );
}

#[test]
fn pool_with_memecoin_first() {
    let ctx = pool_ctx(key(40), 1_000_000, wsol(), 20 * SOL);
    assert_eq!(
        create_raydium_pool::handler(&ctx, &wsol()),
        Ok(RaydiumPoolLaunch {
            init_amount_0: 982_500,
            init_amount_1: 20 * SOL,
            open_time: 5_000,
            initialize_pool: true,
            launch_success_fee_sol_amount: 350_000_000,
            launch_success_fee_memecoin_amount: 17_500,
            memecoin_fee_from_token_1: false,
        })
    );
    let plan = create_raydium_pool::handler(&ctx, &wsol()).unwrap();
    assert_eq!(plan.init_amount_0 + plan.launch_success_fee_memecoin_amount, ctx.memecoin_config_token_0_amount);
}

#[test]
fn pool_not_opened_with_an_empty_side() {
    let ctx = pool_ctx(wsol(), 0, key(40), 1_000_000);
    let plan = create_raydium_pool::handler(&ctx, &wsol()).unwrap();
    assert!(!plan.initialize_pool);
}

#[test]
fn pool_refusals() {
    let mut ctx = pool_ctx(wsol(), 20 * SOL, key(40), 1_000_000);
    ctx.memecoin_config.status = LaunchStatus::Ongoing;
    assert_eq!(
        create_raydium_pool::handler(&ctx, &wsol()),
        Err(InstructionError::Custom(ErrorCode::OnlyCreatePoolWhenLaunchSuccess))
    );
    let mut ctx = pool_ctx(wsol(), 20 * SOL, key(40), 1_000_000);
    ctx.launch_success_fee_receiver = key(4);
    assert_eq!(create_raydium_pool::handler(&ctx, &wsol()), Err(InstructionError::ConstraintAddress));
    let mut ctx = pool_ctx(wsol(), 20 * SOL, key(40), 1_000_000);
    ctx.global_config.launch_success_fee_bps = 20_000;
    assert_eq!(
        create_raydium_pool::handler(&ctx, &wsol()),
        Err(InstructionError::Custom(ErrorCode::CalculationError))
    );
}

fn handover_ctx() -> CreateRaydiumPoolByAdmin {
    CreateRaydiumPoolByAdmin {
        memecoin_config: memecoin(LaunchStatus::Succeed),
        global_config: global(175),
        admin: key(1),
        wsol_mint: wsol(),
        memecoin_config_token_amount: 1_000_000,
        launch_success_fee_receiver: key(3),
        memecoin_config_lamports: 21 * SOL,
        memecoin_config_rent_exempt_minimum: 2_000_000,
        launch_success_fee_receiver_lamports: 5,
        admin_lamports: 7,
    }
}

#[test]
fn admin_handover() {
    let mut ctx = handover_ctx();
    let res = create_raydium_pool_by_admin::handler(&mut ctx, &wsol());
    assert_eq!(
        res,
        Ok(AdminPoolHandover {
            transfer_to_admin_wsol_amount: 19_500_000_000,
            transfer_to_admin_memecoin_amount: 982_500,
            launch_success_fee_memecoin_amount: 17_500,
            launch_success_fee_sol_amount: 350_000_000,
            create_raydium_pool_fee: 150_000_000,
        })
    );
    assert_eq!(ctx.memecoin_config_lamports, 21 * SOL - 500_000_000);
    assert_eq!(ctx.launch_success_fee_receiver_lamports, 350_000_005);
    assert_eq!(ctx.admin_lamports, 150_000_007);
    let before = handover_ctx();
    assert_eq!(
        ctx.memecoin_config_lamports + ctx.launch_success_fee_receiver_lamports + ctx.admin_lamports,
        before.memecoin_config_lamports + before.launch_success_fee_receiver_lamports + before.admin_lamports
    );
    let h = res.unwrap();
    assert_eq!(h.transfer_to_admin_memecoin_amount + h.launch_success_fee_memecoin_amount, 1_000_000);
}

#[test]
fn admin_handover_caps_the_sol_fee_at_rent() {
    let mut ctx = handover_ctx();
    ctx.memecoin_config_lamports = 2_100_000_000;
    ctx.memecoin_config_rent_exempt_minimum = 2_000_000_000;
    let h = create_raydium_pool_by_admin::handler(&mut ctx, &wsol()).unwrap();
    assert_eq!(h.launch_success_fee_sol_amount, 100_000_000);
    assert_eq!(h.create_raydium_pool_fee, 150_000_000);
    assert_eq!(ctx.memecoin_config_lamports, 1_850_000_000);
    assert_eq!(ctx.admin_lamports, 150_000_007);
    assert_eq!(ctx.launch_success_fee_receiver_lamports, 100_000_005);
}

#[test]
fn admin_handover_refusals() {
    let mut ctx = handover_ctx();
    ctx.admin = key(9);
    let before = ctx;
    assert_eq!(
        create_raydium_pool_by_admin::handler(&mut ctx, &wsol()),
        Err(InstructionError::ConstraintHasOne)
    );
    assert_eq!(ctx, before);

    let mut ctx = handover_ctx();
    ctx.launch_success_fee_receiver = key(9);
    assert_eq!(
        create_raydium_pool_by_admin::handler(&mut ctx, &wsol()),
        Err(InstructionError::ConstraintAddress)
    );

    let mut ctx = handover_ctx();
    ctx.memecoin_config.status = LaunchStatus::Failed;
    assert_eq!(
        create_raydium_pool_by_admin::handler(&mut ctx, &wsol()),
        Err(InstructionError::Custom(ErrorCode::OnlyCreatePoolWhenLaunchSuccess))
    );

    let mut ctx = handover_ctx();
    ctx.wsol_mint = key(9);
    assert_eq!(
        create_raydium_pool_by_admin::handler(&mut ctx, &wsol()),
        Err(InstructionError::Custom(ErrorCode::WrongWSOLMint))
    );

    // A fee rate above the whole leaves nothing for the pool fee.
    let mut ctx = handover_ctx();
    ctx.global_config.launch_success_fee_bps = 20_000;
    let before = ctx;
    assert_eq!(
        create_raydium_pool_by_admin::handler(&mut ctx, &wsol()),
        Err(InstructionError::Custom(ErrorCode::CalculationError))
    );
    assert_eq!(ctx, before);

    // The pool fee overdraws the configuration's account.
    let mut ctx = handover_ctx();
    ctx.memecoin_config_lamports = 400_000_000;
    ctx.memecoin_config_rent_exempt_minimum = 0;
    let before = ctx;
    assert_eq!(
        create_raydium_pool_by_admin::handler(&mut ctx, &wsol()),
        Err(InstructionError::ArithmeticOverflow)
    );
    assert_eq!(ctx, before);
}

#[test]
fn wrapping_raised_sol() {
    let ctx = WrapSol { memecoin_config: memecoin(LaunchStatus::Succeed), global_config: global(175), wrapped_sol_mint: wsol() };
    assert_eq!(wrap_sol::handler(&ctx, &wsol()), Ok(19_650_000_000));
    let ctx = WrapSol { memecoin_config: memecoin(LaunchStatus::Ongoing), global_config: global(175), wrapped_sol_mint: wsol() };
    assert_eq!(
        wrap_sol::handler(&ctx, &wsol()),
        Err(InstructionError::Custom(ErrorCode::OnlyWrapSolWhenLaunchSuccess))
    );
    let ctx = WrapSol { memecoin_config: memecoin(LaunchStatus::Succeed), global_config: global(175), wrapped_sol_mint: key(9) };
    assert_eq!(wrap_sol::handler(&ctx, &wsol()), Err(InstructionError::Custom(ErrorCode::WrongWSOLMint)));
    let ctx = WrapSol { memecoin_config: memecoin(LaunchStatus::Succeed), global_config: global(10_001), wrapped_sol_mint: wsol() };
    assert_eq!(
        wrap_sol::handler(&ctx, &wsol()),
        Err(InstructionError::Custom(ErrorCode::CalculationError))
    );
}

#[test]
fn wrapped_sol_and_launch_fee_fit_in_the_raised_amount() {
    let raised = 50 * SOL;
    let g = global(175);
    let mut config = memecoin(LaunchStatus::Succeed);
    config.funding_raise_tier = FundingRaiseTier::FiftySol;
    let wrap = wrap_sol::handler(&WrapSol { memecoin_config: config, global_config: g, wrapped_sol_mint: wsol() }, &wsol())
        .unwrap();
    assert_eq!(wrap, 49_125_000_000);
    let fee = bps_share(raised, g.launch_success_fee_bps as u64).unwrap();
    assert!(wrap + fee <= raised && wrap + fee + 1 >= raised);
}

#[test]
fn wrapping_against_the_wrapped_sol_mint() {
    let mint = memecoin::wsol_mint_pubkey().unwrap();
    let ctx = WrapSol { memecoin_config: memecoin(LaunchStatus::Succeed), global_config: global(175), wrapped_sol_mint: mint };
    assert_eq!(wrap_sol::handler_for_wsol_mint(&ctx), Some(Ok(19_650_000_000)));
    let ctx = WrapSol { memecoin_config: memecoin(LaunchStatus::Succeed), global_config: global(175), wrapped_sol_mint: wsol() };
    assert_eq!(
        wrap_sol::handler_for_wsol_mint(&ctx),
        Some(Err(InstructionError::Custom(ErrorCode::WrongWSOLMint)))
    );
}

#[test]
fn pool_against_the_wrapped_sol_mint() {
    let mint = memecoin::wsol_mint_pubkey().unwrap();
    let ctx = pool_ctx(key(40), 1_000_000, mint, 20 * SOL);
    let plan = create_raydium_pool::handler_for_wsol_mint(&ctx).unwrap().unwrap();
    assert!(!plan.memecoin_fee_from_token_1);
    assert_eq!(plan.init_amount_0, 982_500);
    let ctx = pool_ctx(mint, 20 * SOL, key(40), 1_000_000);
    let plan = create_raydium_pool::handler_for_wsol_mint(&ctx).unwrap().unwrap();
    assert!(plan.memecoin_fee_from_token_1);
    assert_eq!(plan.init_amount_1, 982_500);
}

#[test]
fn handover_against_the_wrapped_sol_mint() {
    let mint = memecoin::wsol_mint_pubkey().unwrap();
    let mut ctx = handover_ctx();
    ctx.wsol_mint = mint;
    let h = create_raydium_pool_by_admin::handler_for_wsol_mint(&mut ctx).unwrap().unwrap();
    assert_eq!(h.transfer_to_admin_wsol_amount, 19_500_000_000);
    let mut ctx = handover_ctx();
    let before = ctx;
    assert_eq!(
        create_raydium_pool_by_admin::handler_for_wsol_mint(&mut ctx),
        Some(Err(InstructionError::Custom(ErrorCode::WrongWSOLMint)))
    );
    assert_eq!(ctx, before);
}
