use crate::error::RusteriaError;
use vstd::prelude::*;

verus! {

/// `uuid::Error`, made known to the verifier as a value that is carried
/// along and never looked into.
#[verifier::external_type_specification]
#[verifier::external_body]
pub struct ExUuidError(uuid::Error);

/// The number that `uuid::Uuid::parse_str` reads out of a text, or `None`
/// where it rejects the text. The number is the UUID's sixteen bytes taken
/// as one big-endian integer, as `uuid::Uuid::as_u128` gives them.
pub uninterp spec fn uuid_bits_of(text: Seq<char>) -> Option<u128>;

/// Whether sixteen bytes, read as one big-endian number, are laid out as a
/// version 7 UUID: the version nibble is 7 and the variant bits are `10`.
pub open spec fn is_version7(bits: u128) -> bool {
    (bits >> 76) & 0xf == 7 && (bits >> 62) & 0x3 == 2
}

/// Identifier of a task: the 128 bits of a UUID.
///
/// Identifiers are made by [`TodoId::generate`] as version 7 UUIDs, whose
/// leading bits are the time of creation, so that they sort by age.
#[derive(Clone, Copy, Debug, PartialEq, Eq, PartialOrd, Ord, Hash, Structural)]
pub struct TodoId(pub u128);

/// Makes a new identifier with `uuid::Uuid::now_v7` and returns its bytes as
/// one big-endian number (`uuid::Uuid::as_u128`). Trusted: that the result
/// carries the version and variant marks of a version 7 UUID. Nothing is
/// claimed of the time and the random bits in it. The call stops the program
/// where the system clock stands before 1970 or the system gives no random
/// bytes.
#[verifier::external_body]
fn fresh_uuid_bits() -> (bits: u128)
    ensures
        is_version7(bits),
{
    uuid::Uuid::now_v7().as_u128()
}

/// Parses a text with `uuid::Uuid::parse_str`. Trusted: that the outcome is
/// a function of the text alone, named [`uuid_bits_of`]; a UUID comes back
/// as its big-endian number.
#[verifier::external_body]
fn parse_uuid_bits(text: &str) -> (parsed: Result<u128, uuid::Error>)
    ensures
        uuid_bits_of(text@) == match parsed {
            Ok(bits) => Some(bits),
            Err(_) => None,
        },
{
    match uuid::Uuid::parse_str(text) {
        Ok(id) => Ok(id.as_u128()),
        Err(error) => Err(error),
    }
}

impl TodoId {
    /// What parsing makes of the number read from a text, if any.
    pub open spec fn parse_outcome(bits: Option<u128>) -> Result<TodoId, RusteriaError> {
        match bits {
            Some(bits) => Ok(TodoId(bits)),
            None => Err(RusteriaError::InvalidUUID),
        }
    }

    /// A fresh identifier, made from the current time and random bits.
    pub fn generate() -> (id: TodoId)
        ensures
            is_version7(id.0),
    {
        TodoId(fresh_uuid_bits())
    }

    /// Turns the outcome of reading a UUID into an identifier, or into
    /// [`RusteriaError::InvalidUUID`] where the text was no UUID.
    pub fn from_parsed(parsed: Result<u128, uuid::Error>) -> (outcome: Result<TodoId, RusteriaError>)
        ensures
            outcome == TodoId::parse_outcome(
                match parsed {
                    Ok(bits) => Some(bits),
                    Err(_) => None,
                },
            ),
    {
        match parsed {
            Ok(bits) => Ok(TodoId(bits)),
            Err(_) => Err(RusteriaError::InvalidUUID),
        }
    }

    /// Reads an identifier from its text form: any of the ways of writing a
    /// UUID (plain hexadecimal, hyphenated, braced, URN).
    pub fn parse(text: &str) -> (outcome: Result<TodoId, RusteriaError>)
        ensures
            outcome == TodoId::parse_outcome(uuid_bits_of(text@)),
    {
        TodoId::from_parsed(parse_uuid_bits(text))
    }
}

} // verus!
