//! The accounts that the launchpad keeps.

use vstd::prelude::*;

use crate::constants::{LAMPORTS_PER_SOL, MEMECOIN_TOTAL_SUPPLY};
use crate::errors::ErrorCode;
use crate::pubkey::Pubkey;

verus! {

/// Where the sale of a memecoin stands.
#[derive(Clone, Copy, Debug, PartialEq, Eq, Structural)]
pub enum LaunchStatus {
    Ongoing,
    Succeed,
    Failed,
}

/// How much a memecoin's sale sets out to raise.
#[derive(Clone, Copy, Debug, PartialEq, Eq, Structural)]
pub enum FundingRaiseTier {
    TwentySol,
    FiftySol,
    OneHundredSol,
}

/// The code that an instruction carries for each funding tier.
pub open spec fn spec_tier_code(tier: FundingRaiseTier) -> u8 {
    match tier {
        FundingRaiseTier::TwentySol => 0,
        FundingRaiseTier::FiftySol => 1,
        FundingRaiseTier::OneHundredSol => 2,
    }
}

/// The tier that a code names: codes 0, 1 and 2 name the three tiers, and no
/// other code names one.
pub open spec fn spec_tier_from_code(code: u8) -> Option<FundingRaiseTier> {
    if code == 0 {
        Some(FundingRaiseTier::TwentySol)
    } else if code == 1 {
        Some(FundingRaiseTier::FiftySol)
    } else if code == 2 {
        Some(FundingRaiseTier::OneHundredSol)
    } else {
        None
    }
}

/// Reads a funding tier from its code.
pub fn funding_raise_tier_from_code(code: u8) -> (tier: Result<FundingRaiseTier, ErrorCode>)
    ensures
        match spec_tier_from_code(code) {
            Some(t) => tier == Ok::<FundingRaiseTier, ErrorCode>(t),
            None => tier == Err::<FundingRaiseTier, ErrorCode>(ErrorCode::InvalidFundingRaiseTier),
        },
{
    match code {
        0 => Ok(FundingRaiseTier::TwentySol),
        1 => Ok(FundingRaiseTier::FiftySol),
        2 => Ok(FundingRaiseTier::OneHundredSol),
        _ => Err(ErrorCode::InvalidFundingRaiseTier),
    }
}

/// The code of a funding tier.
pub fn funding_raise_tier_code(tier: FundingRaiseTier) -> (code: u8)
    ensures
        code == spec_tier_code(tier),
{
    match tier {
        FundingRaiseTier::TwentySol => 0,
        FundingRaiseTier::FiftySol => 1,
        FundingRaiseTier::OneHundredSol => 2,
    }
}

/// Reading a tier back from its code gives the tier, and every code that
/// names a tier is that tier's code.
pub proof fn tier_code_round_trip(tier: FundingRaiseTier, code: u8)
    ensures
        spec_tier_from_code(spec_tier_code(tier)) == Some(tier),
        spec_tier_from_code(code) matches Some(t) ==> spec_tier_code(t) == code,
        spec_tier_from_code(code) is Some <==> code <= 2,
{
}

/// Lamports that a sale of the tier raises.
pub open spec fn spec_tier_value(tier: FundingRaiseTier) -> u64 {
    match tier {
        FundingRaiseTier::TwentySol => (20 * LAMPORTS_PER_SOL) as u64,
        FundingRaiseTier::FiftySol => (50 * LAMPORTS_PER_SOL) as u64,
        FundingRaiseTier::OneHundredSol => (100 * LAMPORTS_PER_SOL) as u64,
    }
}

impl FundingRaiseTier {
    /// Lamports that a sale of this tier raises: 20, 50 or 100 SOL.
    pub fn value(&self) -> (lamports: u64)
        ensures
            lamports == spec_tier_value(*self),
    {
        match self {
            FundingRaiseTier::TwentySol => 20 * LAMPORTS_PER_SOL,
            FundingRaiseTier::FiftySol => 50 * LAMPORTS_PER_SOL,
            FundingRaiseTier::OneHundredSol => 100 * LAMPORTS_PER_SOL,
        }
    }
}

/// The price of one base unit of a memecoin of the tier, in lamports: what
/// the tier raises over the half of the minted supply that is sold, rounded
/// down.
pub open spec fn spec_token_price(tier: FundingRaiseTier) -> u64 {
    (spec_tier_value(tier) / (MEMECOIN_TOTAL_SUPPLY / 2)) as u64
}

/// Every tier's price divides evenly: the price of a base unit times the
/// half of the supply that is sold is exactly what the tier raises.
pub proof fn token_price_times_half_supply(tier: FundingRaiseTier)
    ensures
        spec_token_price(tier) * (MEMECOIN_TOTAL_SUPPLY / 2) == spec_tier_value(tier),
{
    match tier {
        FundingRaiseTier::TwentySol => {
            assert(spec_tier_value(FundingRaiseTier::TwentySol) == 20_000_000_000);
            assert(MEMECOIN_TOTAL_SUPPLY / 2 == 500_000_000);
            assert(20_000_000_000int / 500_000_000 == 40);
            assert(spec_token_price(FundingRaiseTier::TwentySol) == 40);
            assert(spec_token_price(tier) * (MEMECOIN_TOTAL_SUPPLY / 2) == 40int * 500_000_000);
        },
        FundingRaiseTier::FiftySol => {
            assert(spec_tier_value(FundingRaiseTier::FiftySol) == 50_000_000_000);
            assert(MEMECOIN_TOTAL_SUPPLY / 2 == 500_000_000);
            assert(50_000_000_000int / 500_000_000 == 100);
            assert(spec_token_price(FundingRaiseTier::FiftySol) == 100);
            assert(spec_token_price(tier) * (MEMECOIN_TOTAL_SUPPLY / 2) == 100int * 500_000_000);
        },
        FundingRaiseTier::OneHundredSol => {
            assert(spec_tier_value(FundingRaiseTier::OneHundredSol) == 100_000_000_000);
            assert(MEMECOIN_TOTAL_SUPPLY / 2 == 500_000_000);
            assert(100_000_000_000int / 500_000_000 == 200);
            assert(spec_token_price(FundingRaiseTier::OneHundredSol) == 200);
            assert(spec_token_price(tier) * (MEMECOIN_TOTAL_SUPPLY / 2) == 200int * 500_000_000);
        },
    }
}

/// The launchpad's settings, which only its admin may change.
#[derive(Clone, Copy, Debug, PartialEq, Eq)]
pub struct GlobalConfig {
    pub admin: Pubkey,
    pub create_memecoin_fee_receiver: Pubkey,
    pub launch_success_fee_receiver: Pubkey,
    /// Lamports that creating a memecoin costs.
    pub create_memecoin_fee: u64,
    /// The share of the raised funds and of the unsold memecoin that the
    /// launchpad keeps when a launch succeeds, in basis points.
    pub launch_success_fee_bps: u16,
}

impl GlobalConfig {
    /// Bytes that the account takes, its 8-byte discriminator included.
    pub const LEN: usize = 8 + 32 + 32 + 32 + 8 + 2;

    /// Sets every field. No check is made on the fee rate here.
    pub fn initialize(
        &mut self,
        admin: Pubkey,
        create_memecoin_fee_receiver: Pubkey,
        launch_success_fee_receiver: Pubkey,
        create_memecoin_fee: u64,
        launch_success_fee_bps: u16,
    ) -> (res: Result<(), ErrorCode>)
        ensures
            res == Ok::<(), ErrorCode>(()),
            *final(self) == (GlobalConfig {
                admin,
                create_memecoin_fee_receiver,
                launch_success_fee_receiver,
                create_memecoin_fee,
                launch_success_fee_bps,
            }),
    {
        self.admin = admin;
        self.create_memecoin_fee_receiver = create_memecoin_fee_receiver;
        self.launch_success_fee_receiver = launch_success_fee_receiver;
        self.create_memecoin_fee = create_memecoin_fee;
        self.launch_success_fee_bps = launch_success_fee_bps;
        Ok(())
    }

    pub fn set_create_memecoin_fee_receiver(&mut self, create_memecoin_fee_receiver: &Pubkey)
        ensures
            *final(self) == (GlobalConfig {
                create_memecoin_fee_receiver: *create_memecoin_fee_receiver,
                ..*old(self)
            }),
    {
        self.create_memecoin_fee_receiver = *create_memecoin_fee_receiver;
    }

    pub fn set_launch_success_fee_receiver(&mut self, launch_success_fee_receiver: &Pubkey)
        ensures
            *final(self) == (GlobalConfig {
                launch_success_fee_receiver: *launch_success_fee_receiver,
                ..*old(self)
            }),
    {
        self.launch_success_fee_receiver = *launch_success_fee_receiver;
    }

    pub fn set_create_memecoin_fee(&mut self, create_memecoin_fee: u64) -> (res: Result<(), ErrorCode>)
        ensures
            res == Ok::<(), ErrorCode>(()),
            *final(self) == (GlobalConfig { create_memecoin_fee, ..*old(self) }),
    {
        self.create_memecoin_fee = create_memecoin_fee;
        Ok(())
    }

    /// Accepts a fee rate below 10000 basis points and refuses any other,
    /// leaving the configuration as it was.
    pub fn set_launch_success_fee_bps(&mut self, launch_success_fee_bps: u16) -> (res: Result<(), ErrorCode>)
        ensures
            launch_success_fee_bps < 10000 ==> res == Ok::<(), ErrorCode>(()) && *final(self) == (GlobalConfig {
                launch_success_fee_bps,
                ..*old(self)
            }),
            launch_success_fee_bps >= 10000 ==> res == Err::<(), ErrorCode>(
                ErrorCode::InvalidLaunchSuccessFeeBps,
            ) && *final(self) == *old(self),
    {
        if !(launch_success_fee_bps < 10000) {
            return Err(ErrorCode::InvalidLaunchSuccessFeeBps);
        }
        self.launch_success_fee_bps = launch_success_fee_bps;
        Ok(())
    }
}

/// How many memecoins a creator has configured; the next one gets this
/// number as its index.
#[derive(Clone, Copy, Debug, PartialEq, Eq)]
pub struct CreatorMemecoinCounter {
    pub count: u32,
}

impl Default for CreatorMemecoinCounter {
    fn default() -> (counter: Self)
        ensures
            counter.count == 0,
    {
        CreatorMemecoinCounter { count: 0 }
    }
}

impl CreatorMemecoinCounter {
    /// Bytes that the account takes, its 8-byte discriminator included.
    pub const LEN: usize = 8 + 4;

    /// Counts one more memecoin. The count must have room to grow.
    pub fn increment(&mut self)
        requires
            old(self).count < u32::MAX,
        ensures
            final(self).count == old(self).count + 1,
    {
        self.count = self.count + 1;
    }
}

/// One memecoin of one creator: who made it, its index among the creator's
/// memecoins, when, the sale's state and the funding tier.
#[derive(Clone, Copy, Debug, PartialEq, Eq)]
pub struct MemecoinConfig {
    pub creator: Pubkey,
    pub creator_memecoin_index: u32,
    /// Unix time at which the memecoin was configured, in seconds.
    pub created_time: u64,
    pub status: LaunchStatus,
    pub funding_raise_tier: FundingRaiseTier,
}

impl Default for MemecoinConfig {
    /// A freshly allocated account: every byte zero.
    fn default() -> (config: Self)
        ensures
            config.creator@ == Seq::new(32, |i: int| 0u8),
            config.creator_memecoin_index == 0,
            config.created_time == 0,
            config.status == LaunchStatus::Ongoing,
            config.funding_raise_tier == FundingRaiseTier::TwentySol,
    {
        let config = MemecoinConfig {
            creator: Pubkey { bytes: [0u8; 32] },
            creator_memecoin_index: 0,
            created_time: 0,
            status: LaunchStatus::Ongoing,
            funding_raise_tier: FundingRaiseTier::TwentySol,
        };
        assert(config.creator@ =~= Seq::new(32, |i: int| 0u8));
        config
    }
}

impl MemecoinConfig {
    /// Fills in a new memecoin's configuration; its sale starts out ongoing.
    pub fn create_memecoin_config(
        &mut self,
        creator: &Pubkey,
        creator_memecoin_index: u32,
        created_time: u64,
        funding_raise_tier: FundingRaiseTier,
    ) -> (res: Result<(), ErrorCode>)
        ensures
            res == Ok::<(), ErrorCode>(()),
            *final(self) == (MemecoinConfig {
                creator: *creator,
                creator_memecoin_index,
                created_time,
                status: LaunchStatus::Ongoing,
                funding_raise_tier,
            }),
    {
        self.creator = *creator;
        self.creator_memecoin_index = creator_memecoin_index;
        self.created_time = created_time;
        self.status = LaunchStatus::Ongoing;
        self.funding_raise_tier = funding_raise_tier;
        Ok(())
    }

    /// The price of one base unit of the memecoin, in lamports.
    pub fn token_price(&self) -> (price: Result<u64, ErrorCode>)
        ensures
            price == Ok::<u64, ErrorCode>(spec_token_price(self.funding_raise_tier)),
            price matches Ok(p) && p * (MEMECOIN_TOTAL_SUPPLY / 2) == spec_tier_value(
                self.funding_raise_tier,
            ),
    {
        proof {
            token_price_times_half_supply(self.funding_raise_tier);
        }
        let offered = MEMECOIN_TOTAL_SUPPLY / 2;
        let raised = self.funding_raise_tier.value();
        match raised.checked_div(offered) {
            Some(p) => Ok(p),
            None => Err(ErrorCode::CalculationError),
        }
    }

    /// Moves the sale to the given state.
    pub fn set_memecoin_status(&mut self, status: LaunchStatus) -> (res: Result<(), ErrorCode>)
        ensures
            res == Ok::<(), ErrorCode>(()),
            *final(self) == (MemecoinConfig { status, ..*old(self) }),
    {
        self.status = status;
        Ok(())
    }
}

} // verus!
