//! Ethereum addresses as 20 plain bytes, and the `alloy` calls that print
//! and parse them.
use vstd::prelude::*;
use vstd::string::StringSliceAdditionalSpecFns;

use crate::hash::keccak256_digest;
use crate::text::ascii_lower;

verus! {

/// The lowercase hexadecimal digit of `n` (for `0 <= n < 16`).
pub open spec fn hex_digit(n: int) -> char {
    if n < 10 {
        (48 + n) as char
    } else {
        (87 + n) as char
    }
}

/// The lowercase hexadecimal text of `bytes`, two digits per byte, high
/// nibble first, with no prefix.
pub open spec fn lower_hex(bytes: Seq<u8>) -> Seq<char> {
    Seq::new(
        2 * bytes.len(),
        |i: int|
            if i % 2 == 0 {
                hex_digit(bytes[i / 2] as int / 16)
            } else {
                hex_digit(bytes[i / 2] as int % 16)
            },
    )
}

/// The ASCII bytes of a text of ASCII characters.
pub open spec fn ascii_bytes(text: Seq<char>) -> Seq<u8> {
    Seq::new(text.len(), |i: int| text[i] as u8)
}

/// Nibble `i` of `bytes`, high nibble of each byte first.
pub open spec fn nibble(bytes: Seq<u8>, i: int) -> int {
    if i % 2 == 0 {
        bytes[i / 2] as int / 16
    } else {
        bytes[i / 2] as int % 16
    }
}

/// `c` with ASCII `'a'..='z'` mapped to `'A'..='Z'`; every other character unchanged.
pub open spec fn ascii_upper(c: char) -> char {
    if 'a' <= c && c <= 'z' {
        ((c as u32) - 32) as char
    } else {
        c
    }
}

/// The EIP-55 checksum text of an address: `"0x"`, then its lowercase hex
/// digits, where a letter is made a capital when the nibble at its position
/// in the Keccak-256 digest of the lowercase hex text (as ASCII bytes) is 8
/// or more.
pub open spec fn checksum_text(address: Seq<u8>) -> Seq<char> {
    let hex = lower_hex(address);
    let digest = keccak256_digest(ascii_bytes(hex));
    seq!['0', 'x'] + Seq::new(
        hex.len(),
        |i: int|
            if 'a' <= hex[i] && nibble(digest, i) >= 8 {
                ascii_upper(hex[i])
            } else {
                hex[i]
            },
    )
}

/// Lowercasing the checksum text gives back `"0x"` and the lowercase hex
/// digits, whatever the digest.
pub proof fn lemma_checksum_text_lowercase(address: Seq<u8>)
    requires
        address.len() == 20,
    ensures
        checksum_text(address).len() == 42,
        checksum_text(address)[0] == '0',
        checksum_text(address)[1] == 'x',
        forall|i: int|
            0 <= i < 40 ==> ascii_lower(checksum_text(address)[i + 2]) == #[trigger] lower_hex(
                address,
            )[i],
{
    let hex = lower_hex(address);
    let text = checksum_text(address);
    assert forall|i: int| 0 <= i < 40 implies ascii_lower(text[i + 2]) == #[trigger] hex[i] by {
        let n = if i % 2 == 0 {
            address[i / 2] as int / 16
        } else {
            address[i / 2] as int % 16
        };
        assert(hex[i] == hex_digit(n));
        assert(0 <= n < 16);
    }
}

/// Calls `alloy::primitives::Address::to_string` on the address with these
/// bytes, that is its `Display`, which writes the EIP-55 checksum form.
///
/// Trusted: the text is `checksum_text` of the bytes, as `to_checksum_inner`
/// computes it without a chain id: `'0'`, `'x'`, the lowercase hex encoding,
/// then the case of each letter flipped where the digest nibble is 8 or more.
#[verifier::external_body]
pub(crate) fn checksum_string(address: [u8; 20]) -> (text: String)
    ensures
        text@ == checksum_text(address@),
{
    alloy::primitives::Address::from(address).to_string()
}

/// Why a text does not parse as an address (the variants of `alloy`'s
/// `FromHexError`).
#[derive(PartialEq, Eq, Structural, Clone, Copy, Debug)]
pub enum HexError {
    /// The byte at `index` (after the prefix) is not a hex digit; `c` is that
    /// byte taken as a character.
    InvalidHexCharacter { c: char, index: usize },
    /// The text has an odd number of bytes.
    OddLength,
    /// Without its prefix, the text is not 40 bytes long.
    InvalidStringLength,
}

/// The value of an ASCII hex digit of either case, `None` for any other byte.
pub open spec fn hex_value(b: u8) -> Option<int> {
    if 0x30 <= b && b <= 0x39 {
        Some(b - 0x30)
    } else if 0x61 <= b && b <= 0x66 {
        Some(b - 0x61 + 10)
    } else if 0x41 <= b && b <= 0x46 {
        Some(b - 0x41 + 10)
    } else {
        None
    }
}

/// The bytes of an address text without one leading `"0x"` or `"0X"`.
pub open spec fn address_digits(text: Seq<u8>) -> Seq<u8> {
    if text.len() >= 2 && text[0] == 0x30 && (text[1] == 0x78 || text[1] == 0x58) {
        text.skip(2)
    } else {
        text
    }
}

/// The index of the first byte of `digits` that is not a hex digit.
pub open spec fn first_non_hex(digits: Seq<u8>) -> Option<int>
    decreases digits.len(),
{
    if digits.len() == 0 {
        None
    } else if hex_value(digits[0]) is None {
        Some(0)
    } else {
        match first_non_hex(digits.drop_first()) {
            Some(i) => Some(i + 1),
            None => None,
        }
    }
}

/// How the UTF-8 bytes of a text parse as an address: an odd number of
/// bytes is `OddLength`; without one leading `"0x"`/`"0X"` the rest must be
/// 40 bytes, else `InvalidStringLength`; the first byte that is not a hex
/// digit (of either case) is `InvalidHexCharacter`; otherwise the 20 bytes
/// that the digits spell in pairs, high nibble first.
pub open spec fn address_parse(text: Seq<u8>) -> Result<Seq<u8>, HexError> {
    let digits = address_digits(text);
    if text.len() % 2 != 0 {
        Err(HexError::OddLength)
    } else if digits.len() != 40 {
        Err(HexError::InvalidStringLength)
    } else {
        match first_non_hex(digits) {
            Some(i) => Err(HexError::InvalidHexCharacter { c: digits[i] as char, index: i as usize }),
            None => Ok(
                Seq::new(
                    20,
                    |i: int|
                        (16 * hex_value(digits[2 * i])->0 + hex_value(digits[2 * i + 1])->0) as u8,
                ),
            ),
        }
    }
}

/// The parse result with the address taken by its bytes.
pub open spec fn parse_view(parsed: Result<[u8; 20], HexError>) -> Result<Seq<u8>, HexError> {
    match parsed {
        Ok(a) => Ok(a@),
        Err(e) => Err(e),
    }
}

/// Calls `alloy::primitives::Address::from_str`, which hands the text's
/// bytes to `const_hex`'s `decode_to_array`: odd length first, then one
/// `"0x"`/`"0X"` stripped and the length checked, then the first byte that
/// is not a hex digit reported (`invalid_hex_error`).
///
/// Trusted: the outcome is `address_parse` of the text's UTF-8 bytes; the
/// error is `FromHexError` moved variant by variant into `HexError`.
#[verifier::external_body]
pub(crate) fn parse_address(text: &str) -> (parsed: Result<[u8; 20], HexError>)
    ensures
        parse_view(parsed) == address_parse(text.spec_bytes()),
{
    match <alloy::primitives::Address as std::str::FromStr>::from_str(text) {
        Ok(a) => Ok(a.into_array()),
        Err(alloy::primitives::hex::FromHexError::InvalidHexCharacter { c, index }) => Err(HexError::InvalidHexCharacter { c, index }),
        Err(alloy::primitives::hex::FromHexError::OddLength) => Err(HexError::OddLength),
        Err(alloy::primitives::hex::FromHexError::InvalidStringLength) => Err(HexError::InvalidStringLength),
    }
}

} // verus!
