//! The seeds from which the launchpad's program-derived addresses come.

use vstd::prelude::*;

use crate::pubkey::{try_find_program_address, spec_try_find_program_address, Pubkey};

verus! {

/// The four little-endian bytes of a `u32`.
pub open spec fn spec_u32_le_bytes(x: u32) -> Seq<u8> {
    seq![
        (x & 0xff) as u8,
        ((x >> 8u32) & 0xff) as u8,
        ((x >> 16u32) & 0xff) as u8,
        ((x >> 24u32) & 0xff) as u8,
    ]
}

/// The little-endian bytes of a `u32`, as `u32::to_le_bytes` gives them.
pub fn u32_to_le_bytes(x: u32) -> (bytes: [u8; 4])
    ensures
        bytes@ == spec_u32_le_bytes(x),
{
    let bytes: [u8; 4] = [
        (x & 0xff) as u8,
        ((x >> 8u32) & 0xff) as u8,
        ((x >> 16u32) & 0xff) as u8,
        ((x >> 24u32) & 0xff) as u8,
    ];
    assert(bytes@ =~= spec_u32_le_bytes(x));
    bytes
}

/// Different numbers have different little-endian bytes.
pub proof fn u32_le_bytes_injective(x: u32, y: u32)
    requires
        x != y,
    ensures
        spec_u32_le_bytes(x) != spec_u32_le_bytes(y),
{
    if spec_u32_le_bytes(x) == spec_u32_le_bytes(y) {
        assert(spec_u32_le_bytes(x)[0] == spec_u32_le_bytes(y)[0]);
        assert(spec_u32_le_bytes(x)[1] == spec_u32_le_bytes(y)[1]);
        assert(spec_u32_le_bytes(x)[2] == spec_u32_le_bytes(y)[2]);
        assert(spec_u32_le_bytes(x)[3] == spec_u32_le_bytes(y)[3]);
        assert(x == y) by (bit_vector)
            requires
                (x & 0xff) as u8 == (y & 0xff) as u8,
                ((x >> 8u32) & 0xff) as u8 == ((y >> 8u32) & 0xff) as u8,
                ((x >> 16u32) & 0xff) as u8 == ((y >> 16u32) & 0xff) as u8,
                ((x >> 24u32) & 0xff) as u8 == ((y >> 24u32) & 0xff) as u8,
        ;
    }
}

/// The seeds of a memecoin's configuration account: the creator's address
/// and the memecoin's index among the creator's memecoins, little-endian.
pub open spec fn spec_memecoin_config_seeds(creator: Seq<u8>, index: u32) -> Seq<Seq<u8>> {
    seq![creator, spec_u32_le_bytes(index)]
}

/// The seeds of a memecoin's configuration account, with which the
/// launchpad also signs for that account.
pub fn memecoin_config_seeds(creator: &Pubkey, creator_memecoin_index: u32) -> (seeds: Vec<Vec<u8>>)
    ensures
        seeds.deep_view() == spec_memecoin_config_seeds(creator@, creator_memecoin_index),
{
    let mut creator_bytes: Vec<u8> = Vec::new();
    let mut i: usize = 0;
    while i < 32
        invariant
            0 <= i <= 32,
            creator@.len() == 32,
            creator_bytes@ == creator@.subrange(0, i as int),
        decreases 32 - i,
    {
        creator_bytes.push(creator.bytes[i]);
        i = i + 1;
        assert(creator_bytes@ =~= creator@.subrange(0, i as int));
    }
    assert(creator_bytes@ =~= creator@);
    let index_bytes = u32_to_le_bytes(creator_memecoin_index);
    let mut index_vec: Vec<u8> = Vec::new();
    index_vec.push(index_bytes[0]);
    index_vec.push(index_bytes[1]);
    index_vec.push(index_bytes[2]);
    index_vec.push(index_bytes[3]);
    assert(index_vec@ =~= spec_u32_le_bytes(creator_memecoin_index));
    let mut seeds: Vec<Vec<u8>> = Vec::new();
    seeds.push(creator_bytes);
    seeds.push(index_vec);
    assert(seeds@[0].deep_view() =~= seeds@[0]@);
    assert(seeds@[1].deep_view() =~= seeds@[1]@);
    assert(seeds.deep_view() =~= spec_memecoin_config_seeds(creator@, creator_memecoin_index));
    seeds
}

/// Two memecoins of one creator with different indexes have different
/// configuration seeds, so their configuration accounts are told apart.
pub proof fn memecoin_config_seeds_distinct(creator: Seq<u8>, index_a: u32, index_b: u32)
    requires
        index_a != index_b,
    ensures
        spec_memecoin_config_seeds(creator, index_a) != spec_memecoin_config_seeds(creator, index_b),
{
    u32_le_bytes_injective(index_a, index_b);
    if spec_memecoin_config_seeds(creator, index_a) == spec_memecoin_config_seeds(creator, index_b) {
        assert(spec_memecoin_config_seeds(creator, index_a)[1] == spec_memecoin_config_seeds(
            creator,
            index_b,
        )[1]);
    }
}

/// The address and bump of a memecoin's configuration account under the
/// given program, if one is found.
pub fn find_memecoin_config_address(
    creator: &Pubkey,
    creator_memecoin_index: u32,
    program_id: &Pubkey,
) -> (found: Option<(Pubkey, u8)>)
    ensures
        match found {
            Some((key, bump)) => spec_try_find_program_address(
                spec_memecoin_config_seeds(creator@, creator_memecoin_index),
                program_id@,
            ) == Some((key@, bump)),
            None => spec_try_find_program_address(
                spec_memecoin_config_seeds(creator@, creator_memecoin_index),
                program_id@,
            ) is None,
        },
{
    let seeds = memecoin_config_seeds(creator, creator_memecoin_index);
    try_find_program_address(&seeds, program_id)
}

} // verus!
