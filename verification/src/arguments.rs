//! Keys given on the command line: a group's master key in hexadecimal and
//! a profile key in base64, each 32 bytes long.

use vstd::array::*;
use vstd::prelude::*;
use vstd::string::*;

verus! {

/// The error of the `hex` crate's decoder, carried through unread.
#[verifier::external_type_specification]
#[verifier::external_body]
pub struct ExFromHexError(hex::FromHexError);

/// The error of the `base64` crate's decoder, carried through unread.
#[verifier::external_type_specification]
#[verifier::external_body]
pub struct ExDecodeError(base64::DecodeError);

/// What `base64::decode` reads from `text` with the standard alphabet and
/// padding: the decoded bytes, or nothing where the decoder reports an
/// error.
pub uninterp spec fn base64_decoded(text: Seq<char>) -> Option<Seq<u8>>;

/// The length of a key in bytes.
pub const KEY_LENGTH: usize = 32;

/// Why a text is no key.
#[derive(Clone, Copy, PartialEq, Eq, Structural, Debug)]
pub enum KeyError {
    /// The text is not in the encoding that the key is written in.
    Malformed,
    /// The text decodes to more or fewer than 32 bytes.
    WrongLength,
}

/// The value of one hexadecimal digit, given as a byte of text, in either
/// case.
pub open spec fn hex_value(c: u8) -> Option<u8> {
    if 0x30 <= c <= 0x39 {
        Some((c - 0x30) as u8)
    } else if 0x41 <= c <= 0x46 {
        Some((c - 0x41 + 10) as u8)
    } else if 0x61 <= c <= 0x66 {
        Some((c - 0x61 + 10) as u8)
    } else {
        None
    }
}

/// Whether a text, given as bytes, is hexadecimal: an even number of
/// digits and nothing else.
pub open spec fn is_hex(data: Seq<u8>) -> bool {
    &&& data.len() % 2 == 0
    &&& forall|i: int| 0 <= i < data.len() ==> hex_value(#[trigger] data[i]) is Some
}

/// The bytes that a hexadecimal text denotes: one for each pair of digits,
/// the first digit of a pair being the higher half.
pub open spec fn hex_decoded(data: Seq<u8>) -> Seq<u8> {
    Seq::new(
        data.len() / 2,
        |i: int| (hex_value(data[2 * i])->0 * 16 + hex_value(data[2 * i + 1])->0) as u8,
    )
}

/// Calls `hex::decode`. Trusted: it succeeds on an even number of
/// hexadecimal digits of either case and on nothing else, and each byte of
/// the result is made of one pair of digits, the first shifted left by four
/// bits.
#[verifier::external_body]
fn hex_decode(data: &[u8]) -> (r: Result<Vec<u8>, hex::FromHexError>)
    ensures
        r is Ok <==> is_hex(data@),
        r matches Ok(bytes) ==> bytes@ == hex_decoded(data@),
{
    hex::decode(data)
}

/// Calls `base64::decode`, which decodes with the standard engine. Trusted:
/// the result is the decoder's, which depends on the text alone.
#[verifier::external_body]
#[allow(deprecated)]
fn base64_decode(text: &str) -> (r: Result<Vec<u8>, base64::DecodeError>)
    ensures
        match r {
            Ok(bytes) => base64_decoded(text@) == Some(bytes@),
            Err(_) => base64_decoded(text@) is None,
        },
{
    base64::decode(text)
}

/// The key that decoded bytes make: the bytes themselves, if there are 32.
pub open spec fn key_of(bytes: Seq<u8>) -> Result<Seq<u8>, KeyError> {
    if bytes.len() == 32 {
        Ok(bytes)
    } else {
        Err(KeyError::WrongLength)
    }
}

/// The key that the result of a decoder makes.
pub open spec fn key_of_decoded(decoded: Option<Seq<u8>>) -> Result<Seq<u8>, KeyError> {
    match decoded {
        Some(bytes) => key_of(bytes),
        None => Err(KeyError::Malformed),
    }
}

/// The view of a parsed key.
pub open spec fn key_view(key: Result<[u8; 32], KeyError>) -> Result<Seq<u8>, KeyError> {
    match key {
        Ok(bytes) => Ok(bytes@),
        Err(error) => Err(error),
    }
}

/// Makes a key of decoded bytes.
pub fn key_from_bytes(bytes: &Vec<u8>) -> (r: Result<[u8; 32], KeyError>)
    ensures
        key_view(r) == key_of(bytes@),
{
    if bytes.len() != KEY_LENGTH {
        return Err(KeyError::WrongLength);
    }
    let mut key = [0u8;32];
    let mut i: usize = 0;
    while i < KEY_LENGTH
        invariant
            i <= 32,
            bytes.len() == 32,
            forall|k: int| 0 <= k < i ==> key@[k] == bytes@[k],
        decreases 32 - i,
    {
        key.set(i, bytes[i]);
        i += 1;
    }
    assert(key@ =~= bytes@);
    Ok(key)
}

/// Makes a key of what a decoder gave: its bytes, or nothing where it
/// failed.
pub fn key_from_decoded(decoded: Option<Vec<u8>>) -> (r: Result<[u8; 32], KeyError>)
    ensures
        key_view(r) == key_of_decoded(
            match decoded {
                Some(bytes) => Some(bytes@),
                None => None,
            },
        ),
{
    match decoded {
        Some(bytes) => key_from_bytes(&bytes),
        None => Err(KeyError::Malformed),
    }
}

/// Reads a group's master key from hexadecimal text: 64 digits of either
/// case.
pub fn parse_group_master_key(value: &str) -> (r: Result<[u8; 32], KeyError>)
    ensures
        key_view(r) == (if is_hex(value.spec_bytes()) {
            key_of(hex_decoded(value.spec_bytes()))
        } else {
            Err(KeyError::Malformed)
        }),
{
    match hex_decode(value.as_bytes()) {
        Ok(bytes) => key_from_bytes(&bytes),
        Err(_) => Err(KeyError::Malformed),
    }
}

/// Reads a profile key from base64 text.
pub fn parse_base64_profile_key(s: &str) -> (r: Result<[u8; 32], KeyError>)
    ensures
        key_view(r) == key_of_decoded(base64_decoded(s@)),
{
    match base64_decode(s) {
        Ok(bytes) => key_from_decoded(Some(bytes)),
        Err(_) => key_from_decoded(None),
    }
}

} // verus!
