//! Account identifiers: the stable 128-bit id of a protocol participant, and
//! its textual forms.

use vstd::prelude::*;

verus! {

/// The error of the `uuid` crate's parser, carried through unread.
#[verifier::external_type_specification]
#[verifier::external_body]
pub struct ExUuidError(uuid::Error);

/// What `uuid::Uuid::parse_str` reads from `text`: the identifier's 128-bit
/// value, or nothing where the parser reports an error.
pub uninterp spec fn uuid_parsed(text: Seq<char>) -> Option<u128>;

/// The character of one lower-case hexadecimal digit.
pub open spec fn hex_char(d: int) -> char {
    if d == 0 {
        '0'
    } else if d == 1 {
        '1'
    } else if d == 2 {
        '2'
    } else if d == 3 {
        '3'
    } else if d == 4 {
        '4'
    } else if d == 5 {
        '5'
    } else if d == 6 {
        '6'
    } else if d == 7 {
        '7'
    } else if d == 8 {
        '8'
    } else if d == 9 {
        '9'
    } else if d == 10 {
        'a'
    } else if d == 11 {
        'b'
    } else if d == 12 {
        'c'
    } else if d == 13 {
        'd'
    } else if d == 14 {
        'e'
    } else {
        'f'
    }
}

/// The `width` lowest hexadecimal digits of `v`, most significant first.
pub open spec fn hex_digits(v: nat, width: nat) -> Seq<char>
    decreases width,
{
    if width == 0 {
        Seq::empty()
    } else {
        hex_digits(v / 16, (width - 1) as nat).push(hex_char((v % 16) as int))
    }
}

/// The canonical text of an identifier: its 32 hexadecimal digits in groups
/// of 8, 4, 4, 4 and 12, separated by hyphens.
pub open spec fn hyphenated(value: u128) -> Seq<char> {
    let digits = hex_digits(value as nat, 32);
    digits.subrange(0, 8) + seq!['-'] + digits.subrange(8, 12) + seq!['-'] + digits.subrange(
        12,
        16,
    ) + seq!['-'] + digits.subrange(16, 20) + seq!['-'] + digits.subrange(20, 32)
}

/// The identifier that a text denotes, if it denotes one.
pub open spec fn account_parsed(text: Seq<char>) -> Option<AccountId> {
    match uuid_parsed(text) {
        Some(value) => Some(AccountId { value }),
        None => None,
    }
}

/// Calls `uuid::Uuid::parse_str` and hands out the value of what it read,
/// as `Uuid::as_u128` gives it. Trusted: the result is the parser's, which
/// depends on the text alone.
#[verifier::external_body]
fn parse_uuid(text: &str) -> (r: Result<u128, uuid::Error>)
    ensures
        match r {
            Ok(value) => uuid_parsed(text@) == Some(value),
            Err(_) => uuid_parsed(text@) is None,
        },
{
    uuid::Uuid::parse_str(text).map(|id| id.as_u128())
}

/// Calls `uuid::Uuid::from_u128` and formats the identifier with its
/// `Display` impl. Trusted: that impl writes the lower-case hyphenated form,
/// the 32 hexadecimal digits of the value, most significant first, with a
/// hyphen after the 8th, 12th, 16th and 20th digit.
#[verifier::external_body]
fn uuid_text(value: u128) -> (r: String)
    ensures
        r@ == hyphenated(value),
{
    uuid::Uuid::from_u128(value).to_string()
}

/// The stable unique id of a sender or recipient.
#[derive(Clone, Copy, PartialEq, Eq, Structural, Debug)]
pub struct AccountId {
    pub value: u128,
}

impl AccountId {
    /// Reads an identifier from its text. Any form that the `uuid` parser
    /// accepts is accepted; every other text gives `None`.
    pub fn parse(text: &str) -> (r: Option<AccountId>)
        ensures
            r == account_parsed(text@),
    {
        match parse_uuid(text) {
            Ok(value) => Some(AccountId { value }),
            Err(_) => None,
        }
    }

    /// The canonical text of the identifier.
    pub fn text(&self) -> (r: String)
        ensures
            r@ == hyphenated(self.value),
    {
        uuid_text(self.value)
    }
}

} // verus!
