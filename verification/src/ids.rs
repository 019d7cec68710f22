//! Record, event and link identifiers: UUIDs held by their 128-bit value.
//! Generating, printing and parsing them is done by the `uuid` crate.

use vstd::prelude::*;

verus! {

/// A UUID, held as its 128-bit value (`uuid::Uuid::as_u128`).
#[derive(Debug, Clone, Copy, PartialEq, Eq, Hash, Structural)]
pub struct Uuid {
    pub value: u128,
}

/// A lower-case hexadecimal digit.
pub open spec fn hex_lower(d: int) -> char {
    if d < 10 {
        (0x30 + d) as char
    } else {
        (0x61 - 10 + d) as char
    }
}

/// The `n` lowest hexadecimal digits of `v`, most significant first.
pub open spec fn hex_digits(v: nat, n: nat) -> Seq<char>
    decreases n,
{
    if n == 0 {
        Seq::empty()
    } else {
        hex_digits(v / 16, (n - 1) as nat).push(hex_lower((v % 16) as int))
    }
}

/// The hyphenated lower-case text of a UUID (`Uuid::to_string`): its 32
/// hexadecimal digits, most significant first, in groups of 8, 4, 4, 4 and
/// 12 separated by `-`.
pub open spec fn uuid_text(value: u128) -> Seq<char> {
    let h = hex_digits(value as nat, 32);
    h.subrange(0, 8) + seq!['-'] + h.subrange(8, 12) + seq!['-'] + h.subrange(12, 16) + seq!['-']
        + h.subrange(16, 20) + seq!['-'] + h.subrange(20, 32)
}

/// The value `uuid::Uuid::parse_str` gives for a text; `None` where it refuses
/// the text.
pub uninterp spec fn uuid_parse(text: Seq<char>) -> Option<u128>;

/// The message of the error `uuid::Uuid::parse_str` gives for a text it
/// refuses.
pub uninterp spec fn uuid_error_text(text: Seq<char>) -> Seq<char>;

impl Uuid {
    /// A random (version 4) UUID from `uuid::Uuid::new_v4`. Nothing is said
    /// of its value: it comes from the operating system's random source.
    #[verifier::external_body]
    pub fn new_v4() -> (r: Uuid) {
        Uuid { value: uuid::Uuid::new_v4().as_u128() }
    }

    /// The hyphenated text of this UUID (`Uuid::to_string`). The `uuid` crate
    /// parses that text back to the same value.
    #[verifier::external_body]
    pub fn to_text(&self) -> (r: String)
        ensures
            r@ == uuid_text(self.value),
            uuid_parse(r@) == Some(self.value),
    {
        uuid::Uuid::from_u128(self.value).to_string()
    }

    /// Parses a UUID with `uuid::Uuid::parse_str`; a refusal carries the
    /// error's message.
    #[verifier::external_body]
    pub fn try_parse(text: &str) -> (r: Result<Uuid, String>)
        ensures
            match r {
                Ok(u) => uuid_parse(text@) == Some(u.value),
                Err(m) => uuid_parse(text@) is None && m@ == uuid_error_text(text@),
            },
    {
        match uuid::Uuid::parse_str(text) {
            Ok(u) => Ok(Uuid { value: u.as_u128() }),
            Err(e) => Err(e.to_string()),
        }
    }

    /// Parses a UUID with `uuid::Uuid::parse_str`.
    pub fn parse_str(text: &str) -> (r: Option<Uuid>)
        ensures
            match r {
                Some(u) => uuid_parse(text@) == Some(u.value),
                None => uuid_parse(text@) is None,
            },
    {
        match Self::try_parse(text) {
            Ok(u) => Some(u),
            Err(_) => None,
        }
    }
}

/// Whether `text` parses as a UUID.
pub fn is_uuid(text: &str) -> (r: bool)
    ensures
        r == uuid_parse(text@) is Some,
{
    Uuid::parse_str(text).is_some()
}

} // verus!
