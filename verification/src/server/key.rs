//! The bot's public key: hex-decoded from the configuration.
use vstd::prelude::*;
use vstd::string::StringSliceAdditionalSpecFns;

verus! {

/// Why a hex string did not decode into a key.
#[derive(Debug, Clone, Copy, PartialEq, Eq, Structural)]
pub enum HexError {
    /// The byte at `index` (shown as `c`) is no hex digit.
    InvalidHexCharacter { c: char, index: usize },
    /// The string has an odd number of bytes.
    OddLength,
    /// The string does not have twice as many bytes as the key.
    InvalidStringLength,
}

/// The value of the hex digit `b` (either case), if it is one.
pub open spec fn hex_value(b: u8) -> Option<int> {
    if 0x30 <= b <= 0x39 {
        Some(b - 0x30)
    } else if 0x41 <= b <= 0x46 {
        Some(b - 0x41 + 10)
    } else if 0x61 <= b <= 0x66 {
        Some(b - 0x61 + 10)
    } else {
        None
    }
}

/// The first index at or after `i` whose byte is no hex digit.
pub open spec fn first_non_hex(bytes: Seq<u8>, i: int) -> Option<int>
    decreases bytes.len() - i,
{
    if i < 0 || i >= bytes.len() {
        None
    } else if hex_value(bytes[i]) is None {
        Some(i)
    } else {
        first_non_hex(bytes, i + 1)
    }
}

/// The 32 bytes that the 64 hex digits `bytes` spell (two digits per byte, high digit first),
/// or why they do not: an odd length first, then a length other than 64, then the first byte
/// that is no hex digit.
pub open spec fn decode_key_spec(bytes: Seq<u8>) -> Result<Seq<u8>, HexError> {
    if bytes.len() % 2 != 0 {
        Err(HexError::OddLength)
    } else if bytes.len() != 64 {
        Err(HexError::InvalidStringLength)
    } else {
        match first_non_hex(bytes, 0) {
            Some(i) => Err(HexError::InvalidHexCharacter { c: bytes[i] as char, index: i as usize }),
            None => Ok(
                Seq::new(
                    32,
                    |i: int|
                        (hex_value(bytes[2 * i])->0 * 16 + hex_value(bytes[2 * i + 1])->0) as u8,
                ),
            ),
        }
    }
}

/// `hex::decode_to_slice` into a 32-byte array: decodes the UTF-8 bytes of `s` as in
/// [`decode_key_spec`].
#[verifier::external_body]
fn decode_hex_32(s: &str) -> (res: Result<[u8; 32], HexError>)
    ensures
        match res {
            Ok(key) => decode_key_spec(s.spec_bytes()) == Ok::<Seq<u8>, HexError>(key@),
            Err(e) => decode_key_spec(s.spec_bytes()) == Err::<Seq<u8>, HexError>(e),
        },
{
    let mut out = [0u8; 32];
    match hex::decode_to_slice(s, &mut out) {
        Ok(()) => Ok(out),
        Err(hex::FromHexError::InvalidHexCharacter { c, index }) => Err(
            HexError::InvalidHexCharacter { c, index },
        ),
        Err(hex::FromHexError::OddLength) => Err(HexError::OddLength),
        Err(hex::FromHexError::InvalidStringLength) => Err(HexError::InvalidStringLength),
    }
}

/// The public key that the hex string `public_key` spells (see [`decode_key_spec`]).
pub fn decode_public_key(public_key: &str) -> (res: Result<[u8; 32], HexError>)
    ensures
        match res {
            Ok(key) => decode_key_spec(public_key.spec_bytes()) == Ok::<Seq<u8>, HexError>(key@),
            Err(e) => decode_key_spec(public_key.spec_bytes()) == Err::<Seq<u8>, HexError>(e),
        },
{
    decode_hex_32(public_key)
}

} // verus!
