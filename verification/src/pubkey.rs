//! Account addresses.

use vstd::prelude::*;
use vstd::string::StringSliceAdditionalSpecFns;

verus! {

/// A 32-byte account address, as the Solana runtime identifies accounts.
#[derive(Clone, Copy, Debug, PartialEq, Eq)]
pub struct Pubkey {
    pub bytes: [u8; 32],
}

impl View for Pubkey {
    type V = Seq<u8>;

    open spec fn view(&self) -> Seq<u8> {
        self.bytes@
    }
}

impl Pubkey {
    /// Wraps 32 raw bytes as an address.
    pub fn new_from_array(bytes: [u8; 32]) -> (key: Pubkey)
        ensures
            key.bytes == bytes,
            key@ == bytes@,
    {
        Pubkey { bytes }
    }

    /// Returns the raw bytes of the address.
    pub fn to_bytes(&self) -> (bytes: [u8; 32])
        ensures
            bytes == self.bytes,
    {
        self.bytes
    }

    /// Builds an address from a byte slice; there is one exactly when the
    /// slice holds 32 bytes.
    pub fn try_from_slice(bytes: &[u8]) -> (key: Option<Pubkey>)
        ensures
            key is Some <==> bytes@.len() == 32,
            key matches Some(k) ==> k@ == bytes@,
    {
        if bytes.len() != 32 {
            return None;
        }
        let mut arr: [u8; 32] = [0u8; 32];
        let mut i: usize = 0;
        while i < 32
            invariant
                bytes@.len() == 32,
                0 <= i <= 32,
                forall|j: int| 0 <= j < i ==> arr@[j] == bytes@[j],
            decreases 32 - i,
        {
            arr[i] = bytes[i];
            i = i + 1;
        }
        assert(arr@ =~= bytes@);
        Some(Pubkey { bytes: arr })
    }
}

/// Compares two addresses byte by byte.
pub fn key_eq(a: &Pubkey, b: &Pubkey) -> (eq: bool)
    ensures
        eq <==> a@ == b@,
{
    let mut i: usize = 0;
    while i < 32
        invariant
            0 <= i <= 32,
            a@.len() == 32,
            b@.len() == 32,
            forall|j: int| 0 <= j < i ==> a@[j] == b@[j],
        decreases 32 - i,
    {
        if a.bytes[i] != b.bytes[i] {
            return false;
        }
        i = i + 1;
    }
    assert(a@ =~= b@);
    true
}

} // verus!

verus! {

/// The address of the wrapped SOL mint, in base58.
pub const WSOL_MINT_ADDRESS: &'static str = "So11111111111111111111111111111111111111112";

/// What parsing an address from base58 text gives: the 32 bytes it decodes
/// to, or nothing.
pub uninterp spec fn spec_pubkey_from_str(s: Seq<char>) -> Option<Seq<u8>>;

/// Parses an address from base58 text with `solana_program`'s
/// `Pubkey::from_str`. Believed of it: the result is the named function of
/// the text; text of more than 44 bytes gives none; a result has 32 bytes.
#[verifier::external_body]
pub(crate) fn pubkey_from_str(s: &str) -> (key: Option<Pubkey>)
    ensures
        match key {
            Some(k) => spec_pubkey_from_str(s@) == Some(k@),
            None => spec_pubkey_from_str(s@) is None,
        },
        s.spec_bytes().len() > 44 ==> key is None,
{
    match <solana_program::pubkey::Pubkey as std::str::FromStr>::from_str(s) {
        Ok(k) => Some(Pubkey { bytes: k.to_bytes() }),
        Err(_) => None,
    }
}

/// The wrapped SOL mint's address, if its text parses.
pub fn wsol_mint_pubkey() -> (key: Option<Pubkey>)
    ensures
        match key {
            Some(k) => spec_pubkey_from_str(WSOL_MINT_ADDRESS@) == Some(k@),
            None => spec_pubkey_from_str(WSOL_MINT_ADDRESS@) is None,
        },
{
    pubkey_from_str(WSOL_MINT_ADDRESS)
}

} // verus!

verus! {

/// What searching for a program-derived address gives for the seeds and the
/// program: the address and its bump seed, or nothing.
pub uninterp spec fn spec_try_find_program_address(seeds: Seq<Seq<u8>>, program_id: Seq<u8>) -> Option<(Seq<u8>, u8)>;

/// Searches for a program-derived address with `solana_program`'s
/// `Pubkey::try_find_program_address`. Believed of it: the result is the
/// named function of the seeds and the program, and there is none when 16
/// or more seeds are given or a seed is longer than 32 bytes (the search
/// adds a bump seed, and at most 16 seeds of at most 32 bytes are allowed).
/// Whether the search finds an address otherwise is left unsaid.
#[verifier::external_body]
pub(crate) fn try_find_program_address(seeds: &Vec<Vec<u8>>, program_id: &Pubkey) -> (found: Option<(Pubkey, u8)>)
    ensures
        match found {
            Some((key, bump)) => spec_try_find_program_address(seeds.deep_view(), program_id@)
                == Some((key@, bump)),
            None => spec_try_find_program_address(seeds.deep_view(), program_id@) is None,
        },
        seeds@.len() >= 16 || (exists|i: int| 0 <= i < seeds@.len() && #[trigger] seeds@[i]@.len() > 32)
            ==> found is None,
{
    let seed_slices: Vec<&[u8]> = seeds.iter().map(|s| s.as_slice()).collect();
    let program = solana_program::pubkey::Pubkey::new_from_array(program_id.bytes);
    solana_program::pubkey::Pubkey::try_find_program_address(&seed_slices, &program)
        .map(|(key, bump)| (Pubkey { bytes: key.to_bytes() }, bump))
}

} // verus!

verus! {

/// Whether a character belongs to the base58 alphabet of Bitcoin, in which
/// addresses are written.
pub open spec fn is_base58_char(c: char) -> bool {
    let n = c as u32;
    ||| 0x31 <= n <= 0x39
    ||| 0x41 <= n <= 0x48
    ||| 0x4a <= n <= 0x4e
    ||| 0x50 <= n <= 0x5a
    ||| 0x61 <= n <= 0x6b
    ||| 0x6d <= n <= 0x7a
}

/// The base58 text of an address.
pub uninterp spec fn spec_pubkey_to_string(key: Seq<u8>) -> Seq<char>;

/// Writes an address as base58 text with `solana_program`'s `Display` for
/// `Pubkey`, which encodes the bytes with `bs58` in Bitcoin's alphabet.
/// Believed of it: the text is the named function of the bytes, and every
/// character of it is in that alphabet.
#[verifier::external_body]
pub(crate) fn pubkey_to_string(key: &Pubkey) -> (text: String)
    ensures
        text@ == spec_pubkey_to_string(key@),
        forall|i: int| 0 <= i < text@.len() ==> is_base58_char(#[trigger] text@[i]),
{
    solana_program::pubkey::Pubkey::new_from_array(key.bytes).to_string()
}

} // verus!
