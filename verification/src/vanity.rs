//! Searching for program-derived addresses whose text ends in "meme".

use vstd::prelude::*;
use vstd::string::StrSliceExecFns;

use crate::pubkey::{
    is_base58_char, pubkey_to_string, spec_pubkey_to_string, spec_try_find_program_address,
    try_find_program_address, Pubkey,
};

verus! {

/// The program under which addresses are searched, in base58.
pub const BASE58_PROGRAM_ID: &'static str = "C6L4yyXXCc44SVXvUSnijjMgmhqxAStM69qfd7yummZM";

/// What decoding base58 text gives: its bytes, or nothing when the text is
/// not base58.
pub uninterp spec fn spec_bs58_decode(text: Seq<char>) -> Option<Seq<u8>>;

/// Decodes base58 text with `bs58::decode(..).into_vec()`. Believed of it:
/// the result is the named function of the text.
#[verifier::external_body]
fn bs58_decode(text: &str) -> (bytes: Option<Vec<u8>>)
    ensures
        match bytes {
            Some(b) => spec_bs58_decode(text@) == Some(b@),
            None => spec_bs58_decode(text@) is None,
        },
{
    match bs58::decode(text).into_vec() {
        Ok(b) => Some(b),
        Err(_) => None,
    }
}

/// The program's address: the bytes that its base58 text decodes to, when
/// they are 32; nothing otherwise.
pub fn decode_base58_program_id() -> (program_id: Option<Pubkey>)
    ensures
        match spec_bs58_decode(BASE58_PROGRAM_ID@) {
            Some(b) => if b.len() == 32 {
                program_id matches Some(k) && k@ == b
            } else {
                program_id is None
            },
            None => program_id is None,
        },
{
    match bs58_decode(BASE58_PROGRAM_ID) {
        Some(bytes) => Pubkey::try_from_slice(bytes.as_slice()),
        None => None,
    }
}

/// A character in lower case, as far as ASCII letters go.
pub open spec fn ascii_lower(c: char) -> char {
    if 0x41 <= (c as u32) <= 0x5a {
        ((c as u32) + 32) as char
    } else {
        c
    }
}

/// Whether text, in lower case, ends with "meme".
pub open spec fn ends_with_meme_ignoring_case(text: Seq<char>) -> bool {
    let lower = text.map_values(|c: char| ascii_lower(c));
    &&& lower.len() >= 4
    &&& lower.subrange(lower.len() - 4, lower.len() as int) == seq!['m', 'e', 'm', 'e']
}

proof fn ascii_lower_letter(c: char, lower: char, upper: char)
    requires
        0x61 <= (lower as u32) <= 0x7a,
        (upper as u32) == (lower as u32) - 32,
    ensures
        ascii_lower(c) == lower <==> (c == lower || c == upper),
{
}

/// Whether one character is the given lower-case letter in either case.
fn is_letter_ignoring_case(c: char, lower: char, upper: char) -> (same: bool)
    requires
        0x61 <= (lower as u32) <= 0x7a,
        (upper as u32) == (lower as u32) - 32,
    ensures
        same <==> ascii_lower(c) == lower,
{
    proof {
        ascii_lower_letter(c, lower, upper);
    }
    c == lower || c == upper
}

/// Whether base58 text, in lower case, ends with "meme".
fn text_ends_with_meme(text: &String) -> (hit: bool)
    requires
        forall|i: int| 0 <= i < text@.len() ==> is_base58_char(#[trigger] text@[i]),
    ensures
        hit <==> ends_with_meme_ignoring_case(text@),
{
    let s = text.as_str();
    let n = s.unicode_len();
    if n < 4 {
        return false;
    }
    let c0 = s.get_char(n - 4);
    let c1 = s.get_char(n - 3);
    let c2 = s.get_char(n - 2);
    let c3 = s.get_char(n - 1);
    let hit = is_letter_ignoring_case(c0, 'm', 'M') && is_letter_ignoring_case(c1, 'e', 'E')
        && is_letter_ignoring_case(c2, 'm', 'M') && is_letter_ignoring_case(c3, 'e', 'E');
    proof {
        let lower = text@.map_values(|c: char| ascii_lower(c));
        let tail = lower.subrange(lower.len() - 4, lower.len() as int);
        assert(tail[0] == ascii_lower(c0));
        assert(tail[1] == ascii_lower(c1));
        assert(tail[2] == ascii_lower(c2));
        assert(tail[3] == ascii_lower(c3));
        if hit {
            assert(tail =~= seq!['m', 'e', 'm', 'e']);
        }
    }
    hit
}

/// The text of an address when, in lower case, it ends with "meme".
pub fn vanity_text(key: &Pubkey) -> (text: Option<String>)
    ensures
        text is Some <==> ends_with_meme_ignoring_case(spec_pubkey_to_string(key@)),
        text matches Some(t) ==> t@ == spec_pubkey_to_string(key@),
{
    let text = pubkey_to_string(key);
    if text_ends_with_meme(&text) {
        Some(text)
    } else {
        None
    }
}

/// Tries one 32-byte seed: the program-derived address of that single seed
/// under the program, and its text when that ends with "meme" in lower case.
/// Nothing comes back when no address is found for the seed or its text
/// does not match.
pub fn probe_seed(seed: &[u8; 32], program_id: &Pubkey) -> (hit: Option<(Pubkey, String)>)
    ensures
        match spec_try_find_program_address(seq![seed@], program_id@) {
            Some((pda, bump)) => match hit {
                Some((key, text)) => key@ == pda && text@ == spec_pubkey_to_string(pda)
                    && ends_with_meme_ignoring_case(text@),
                None => !ends_with_meme_ignoring_case(spec_pubkey_to_string(pda)),
            },
            None => hit is None,
        },
{
    let mut seed_vec: Vec<u8> = Vec::new();
    let mut i: usize = 0;
    while i < 32
        invariant
            0 <= i <= 32,
            seed@.len() == 32,
            seed_vec@ == seed@.subrange(0, i as int),
        decreases 32 - i,
    {
        seed_vec.push(seed[i]);
        i = i + 1;
        assert(seed_vec@ =~= seed@.subrange(0, i as int));
    }
    assert(seed_vec@ =~= seed@);
    let mut seeds: Vec<Vec<u8>> = Vec::new();
    seeds.push(seed_vec);
    assert(seeds@[0].deep_view() =~= seeds@[0]@);
    assert(seeds.deep_view() =~= seq![seed@]);
    match try_find_program_address(&seeds, program_id) {
        Some((pda, _bump)) => match vanity_text(&pda) {
            Some(text) => Some((pda, text)),
            None => None,
        },
        None => None,
    }
}

} // verus!
