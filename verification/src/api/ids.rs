//! The identifiers of the content service.

use vstd::prelude::*;

verus! {

/// The hyphenated lower-case text of the identifier with the value
/// `value`, as `uuid::Uuid` displays it.
pub uninterp spec fn uuid_text(value: u128) -> Seq<char>;

/// The value of the identifier that `uuid::Uuid::parse_str` reads from
/// `text`, or nothing where it reads none.
pub uninterp spec fn parsed_uuid(text: Seq<char>) -> Option<u128>;

/// `uuid::Uuid::from_u128` and the `Display` of the identifier it gives:
/// the hyphenated lower-case text of the identifier with this value.
#[verifier::external_body]
fn format_uuid(value: u128) -> (text: String)
    ensures
        text@ == uuid_text(value),
{
    uuid::Uuid::from_u128(value).to_string()
}

/// `uuid::Uuid::parse_str`, with `as_u128` on what it reads: the value of
/// the identifier that `text` spells, in any of the spellings that the
/// crate accepts.
#[verifier::external_body]
fn parse_uuid(text: &str) -> (value: Option<u128>)
    ensures
        value == parsed_uuid(text@),
{
    match uuid::Uuid::parse_str(text) {
        Ok(id) => Some(id.as_u128()),
        Err(_) => None,
    }
}

/// Whether `value` is the value of an identifier of version 4: its four
/// version bits are `0100` and its two variant bits are `10`; the other 122
/// bits are free.
pub open spec fn is_version_four(value: u128) -> bool {
    (value & 0x0000_0000_0000_f000_c000_0000_0000_0000u128)
        == 0x0000_0000_0000_4000_8000_0000_0000_0000u128
}

/// `uuid::Uuid::new_v4`, with `as_u128`: the value of a fresh random
/// identifier. The crate draws 128 random bits and then sets the version
/// and the variant, so every outcome is an identifier of version 4; which
/// one is not known.
#[verifier::external_body]
fn random_uuid() -> (value: u128)
    ensures
        is_version_four(value),
{
    uuid::Uuid::new_v4().as_u128()
}

/// An identifier of the content service.
#[derive(Clone, Copy, Debug, PartialEq, Eq, Structural, Hash, PartialOrd, Ord)]
pub struct Uuid {
    /// The 128 bits of the identifier, as one number.
    pub value: u128,
}

impl Uuid {
    /// The identifier with the value `value`.
    pub fn from_u128(value: u128) -> (id: Self)
        ensures
            id.value == value,
    {
        Uuid { value }
    }

    /// The identifier that `text` spells, if it spells one.
    pub fn parse_str(text: &str) -> (id: Option<Self>)
        ensures
            match parsed_uuid(text@) {
                Some(value) => id == Some(Uuid { value }),
                None => id is None,
            },
    {
        Self::from_parsed(parse_uuid(text))
    }

    /// The identifier that the parser has read as `parsed`.
    pub fn from_parsed(parsed: Option<u128>) -> (id: Option<Self>)
        ensures
            id == match parsed {
                Some(value) => Some(Uuid { value }),
                None => None,
            },
    {
        match parsed {
            Some(value) => Some(Uuid { value }),
            None => None,
        }
    }

    /// The hyphenated lower-case text of the identifier.
    pub fn to_string(&self) -> (text: String)
        ensures
            text@ == uuid_text(self.value),
    {
        format_uuid(self.value)
    }

    /// A fresh identifier of version 4, drawn at random.
    pub fn new_v4() -> (id: Self)
        ensures
            is_version_four(id.value),
    {
        Uuid { value: random_uuid() }
    }
}

} // verus!
