//! What each instruction of the launchpad decides, given the data of the
//! accounts it is handed.

use vstd::prelude::*;

use crate::errors::InstructionError;
use crate::pubkey::{key_eq, Pubkey};
use crate::state::GlobalConfig;

pub mod buy_memecoin;
pub mod create_memecoin_config;
pub mod create_raydium_pool;
pub mod create_raydium_pool_by_admin;
pub mod initialize_global_config;
pub mod mint_memecoin;
pub mod set_create_memecoin_fee;
pub mod set_create_memecoin_fee_receiver;
pub mod set_launch_success_fee_bps;
pub mod set_launch_success_fee_receiver;
pub mod wrap_sol;

verus! {

/// The account check that the signer is the configuration's admin.
pub fn check_admin(global_config: &GlobalConfig, signer: &Pubkey) -> (res: Result<(), InstructionError>)
    ensures
        global_config.admin@ == signer@ ==> res == Ok::<(), InstructionError>(()),
        res is Ok <==> global_config.admin@ == signer@,
        res is Err ==> res == Err::<(), InstructionError>(InstructionError::ConstraintHasOne),
{
    if key_eq(&global_config.admin, signer) {
        Ok(())
    } else {
        Err(InstructionError::ConstraintHasOne)
    }
}

/// The account check that an account sits at the address that the
/// configuration names.
pub fn check_address(actual: &Pubkey, expected: &Pubkey) -> (res: Result<(), InstructionError>)
    ensures
        actual@ == expected@ ==> res == Ok::<(), InstructionError>(()),
        res is Ok <==> actual@ == expected@,
        res is Err ==> res == Err::<(), InstructionError>(InstructionError::ConstraintAddress),
{
    if key_eq(actual, expected) {
        Ok(())
    } else {
        Err(InstructionError::ConstraintAddress)
    }
}

/// Moves `amount` lamports from one balance to another: the source must hold
/// them and the destination must have room for them.
pub fn transfer_lamports(from_lamports: u64, to_lamports: u64, amount: u64) -> (res: Result<
    (u64, u64),
    InstructionError,
>)
    ensures
        amount <= from_lamports && to_lamports + amount <= u64::MAX ==> res == Ok::<
            (u64, u64),
            InstructionError,
        >(((from_lamports - amount) as u64, (to_lamports + amount) as u64)),
        res matches Ok((from_after, to_after)) ==> from_after + to_after == from_lamports
            + to_lamports,
        !(amount <= from_lamports && to_lamports + amount <= u64::MAX) ==> res == Err::<
            (u64, u64),
            InstructionError,
        >(InstructionError::ArithmeticOverflow),
{
    let from_after = match from_lamports.checked_sub(amount) {
        Some(v) => v,
        None => return Err(InstructionError::ArithmeticOverflow),
    };
    let to_after = match to_lamports.checked_add(amount) {
        Some(v) => v,
        None => return Err(InstructionError::ArithmeticOverflow),
    };
    Ok((from_after, to_after))
}

} // verus!
