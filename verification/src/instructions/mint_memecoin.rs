//! Minting a configured memecoin and describing it.

use vstd::prelude::*;

use crate::errors::InstructionError;
use crate::constants::MEMECOIN_TOTAL_SUPPLY;
use crate::pubkey::Pubkey;
use crate::state::{funding_raise_tier_code, spec_tier_code, MemecoinConfig};

verus! {

/// Decimals of every memecoin's mint.
pub const MEMECOIN_DECIMALS: u8 = 6;

/// The accounts of the instruction, as far as its rules read them.
#[derive(Clone, Copy, Debug, PartialEq, Eq)]
pub struct MintMemecoin {
    pub memecoin_config: MemecoinConfig,
    /// Address of the memecoin's configuration account.
    pub memecoin_config_key: Pubkey,
    /// The signer, who created the memecoin.
    pub creator: Pubkey,
    pub mint: Pubkey,
    /// The configuration's token account that receives the supply.
    pub destination: Pubkey,
    /// Supply of the memecoin's mint, in base units, or none while the
    /// mint's account, which the instruction creates, does not exist.
    pub mint_supply: Option<u64>,
}

/// Whether minting is refused: the mint's account exists already.
pub open spec fn spec_mint_refused(ctx: MintMemecoin) -> bool {
    ctx.mint_supply is Some
}

/// The accounts after minting is tried: a refused minting changes nothing;
/// else the mint exists, holding the whole supply.
pub open spec fn spec_mint_state_after(ctx: MintMemecoin) -> MintMemecoin {
    if spec_mint_refused(ctx) {
        ctx
    } else {
        MintMemecoin { mint_supply: Some(MEMECOIN_TOTAL_SUPPLY), ..ctx }
    }
}

/// The metadata recorded for the memecoin's mint.
#[derive(Debug)]
pub struct TokenMetadata {
    pub name: String,
    pub symbol: String,
    pub uri: String,
    pub seller_fee_basis_points: u16,
    /// Whether the metadata lists creators.
    pub names_creators: bool,
    /// Whether the metadata names a collection.
    pub names_collection: bool,
    /// Whether the metadata names uses.
    pub names_uses: bool,
    /// Whether the metadata may be changed later.
    pub is_mutable: bool,
    /// Whether the update authority signs the creation.
    pub update_authority_is_signer: bool,
    /// Whether collection details are recorded.
    pub names_collection_details: bool,
}

/// What minting a memecoin announces.
#[derive(Debug)]
pub struct MemecoinCreated {
    pub creator: Pubkey,
    pub created_time: u64,
    pub memecoin_config: Pubkey,
    pub mint: Pubkey,
    pub destination: Pubkey,
    pub name: String,
    pub symbol: String,
    pub uri: String,
    pub description: String,
    pub decimal: u8,
    pub website: String,
    pub telegram: String,
    pub twitter: String,
    pub funding_raise_tier: u8,
}

/// What minting does: record the metadata, mint the supply to the
/// configuration's token account, and announce the memecoin.
#[derive(Debug)]
pub struct MemecoinMinting {
    pub metadata: TokenMetadata,
    pub mint_amount: u64,
    pub event: MemecoinCreated,
}

/// Plans the minting of a memecoin, given its texts. The metadata carries
/// the name, symbol and uri, no seller fee, and no creators, collection,
/// uses or collection details; it stays mutable and its update authority
/// signs. The whole supply (`MEMECOIN_TOTAL_SUPPLY` base units) is
/// minted; the announcement carries every text, the accounts, the
/// memecoin's creation time, six decimals and the code of its funding tier.
/// The mint's account is created here: if it exists already, minting is
/// refused as `AccountAlreadyInUse` and nothing changes.
pub fn handler(
    ctx: &mut MintMemecoin,
    memecoin_name: &str,
    memecoin_symbol: &str,
    memecoin_uri: &str,
    memecoin_description: &str,
    memecoin_website: &str,
    memecoin_telegram: &str,
    memecoin_twitter: &str,
) -> (res: Result<MemecoinMinting, InstructionError>)
    ensures
        *final(ctx) == spec_mint_state_after(*old(ctx)),
        spec_mint_refused(*old(ctx)) ==> (res matches Err(e) && e == InstructionError::AccountAlreadyInUse),
        !spec_mint_refused(*old(ctx)) ==> (res matches Ok(m) && ({
            &&& m.metadata.name@ == memecoin_name@
            &&& m.metadata.symbol@ == memecoin_symbol@
            &&& m.metadata.uri@ == memecoin_uri@
            &&& m.metadata.seller_fee_basis_points == 0
            &&& !m.metadata.names_creators
            &&& !m.metadata.names_collection
            &&& !m.metadata.names_uses
            &&& m.metadata.is_mutable
            &&& m.metadata.update_authority_is_signer
            &&& !m.metadata.names_collection_details
            &&& m.mint_amount == MEMECOIN_TOTAL_SUPPLY
            &&& m.event.creator == old(ctx).creator
            &&& m.event.created_time == old(ctx).memecoin_config.created_time
            &&& m.event.memecoin_config == old(ctx).memecoin_config_key
            &&& m.event.mint == old(ctx).mint
            &&& m.event.destination == old(ctx).destination
            &&& m.event.name@ == memecoin_name@
            &&& m.event.symbol@ == memecoin_symbol@
            &&& m.event.uri@ == memecoin_uri@
            &&& m.event.description@ == memecoin_description@
            &&& m.event.decimal == MEMECOIN_DECIMALS
            &&& m.event.website@ == memecoin_website@
            &&& m.event.telegram@ == memecoin_telegram@
            &&& m.event.twitter@ == memecoin_twitter@
            &&& m.event.funding_raise_tier == spec_tier_code(old(ctx).memecoin_config.funding_raise_tier)
        })),
{
    if ctx.mint_supply.is_some() {
        return Err(InstructionError::AccountAlreadyInUse);
    }
    let metadata = TokenMetadata {
        name: memecoin_name.to_owned(),
        symbol: memecoin_symbol.to_owned(),
        uri: memecoin_uri.to_owned(),
        seller_fee_basis_points: 0,
        names_creators: false,
        names_collection: false,
        names_uses: false,
        is_mutable: true,
        update_authority_is_signer: true,
        names_collection_details: false,
    };
    let funding_raise_tier = funding_raise_tier_code(ctx.memecoin_config.funding_raise_tier);
    let event = MemecoinCreated {
        creator: ctx.creator,
        created_time: ctx.memecoin_config.created_time,
        memecoin_config: ctx.memecoin_config_key,
        mint: ctx.mint,
        destination: ctx.destination,
        name: memecoin_name.to_owned(),
        symbol: memecoin_symbol.to_owned(),
        uri: memecoin_uri.to_owned(),
        description: memecoin_description.to_owned(),
        decimal: MEMECOIN_DECIMALS,
        website: memecoin_website.to_owned(),
        telegram: memecoin_telegram.to_owned(),
        twitter: memecoin_twitter.to_owned(),
        funding_raise_tier,
    };
    ctx.mint_supply = Some(MEMECOIN_TOTAL_SUPPLY);
    Ok(MemecoinMinting { metadata, mint_amount: MEMECOIN_TOTAL_SUPPLY, event })
}

/// A memecoin is minted at most once: once minting has been tried, the mint
/// exists and any further minting is refused and changes nothing; and a
/// mint that held no more than `MEMECOIN_TOTAL_SUPPLY`, or did not exist,
/// holds no more than that afterwards.
pub proof fn memecoin_minted_once(ctx: MintMemecoin)
    ensures
        spec_mint_refused(spec_mint_state_after(ctx)),
        spec_mint_state_after(spec_mint_state_after(ctx)) == spec_mint_state_after(ctx),
        (ctx.mint_supply matches Some(s) ==> s <= MEMECOIN_TOTAL_SUPPLY) ==> (spec_mint_state_after(
            ctx,
        ).mint_supply matches Some(s) && s <= MEMECOIN_TOTAL_SUPPLY),
{
}

} // verus!
