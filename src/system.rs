//! What the library takes from the machine and from outside crates:
//! fresh identifiers, the current instant, and the text form of identifiers.

use vstd::prelude::*;

verus! {

/// Identifier of an account: the 128-bit value of a UUID.
pub type AccountId = u128;

/// An instant, in microseconds since the Unix epoch (UTC).
pub type Timestamp = i64;

/// Relies on `uuid::Uuid::new_v4` for a random version-4 UUID, read back with
/// `Uuid::as_u128`. Nothing is promised of the value.
#[verifier::external_body]
pub(crate) fn fresh_account_id() -> (r: AccountId) {
    uuid::Uuid::new_v4().as_u128()
}

/// Relies on `chrono::Utc::now` for the current instant, read back with
/// `DateTime::timestamp_micros`. Nothing is promised of the value: the
/// system clock may step backwards. (`Utc::now` panics when the system clock
/// reads earlier than 1970.)
#[verifier::external_body]
pub(crate) fn current_timestamp() -> (r: Timestamp) {
    chrono::Utc::now().timestamp_micros()
}

/// The lowercase hexadecimal digit for `n < 16`.
pub open spec fn hex_digit(n: u128) -> char {
    if n < 10 {
        (('0' as u32) + n as u32) as char
    } else {
        (('a' as u32) + (n - 10) as u32) as char
    }
}

/// The canonical hyphenated text of a UUID: 32 lowercase hexadecimal digits,
/// most significant first, in groups of 8, 4, 4, 4 and 12 separated by `-`.
pub open spec fn hyphenated_text(id: AccountId) -> Seq<char> {
    Seq::new(
        36,
        |i: int|
            if i == 8 || i == 13 || i == 18 || i == 23 {
                '-'
            } else {
                let k = if i < 8 {
                    i
                } else if i < 13 {
                    i - 1
                } else if i < 18 {
                    i - 2
                } else if i < 23 {
                    i - 3
                } else {
                    i - 4
                };
                hex_digit((id >> ((4 * (31 - k)) as u128)) & 15)
            },
    )
}

/// Relies on the `Display` impl of `uuid::Uuid` (built with
/// `Uuid::from_u128`), which writes the hyphenated lowercase form.
#[verifier::external_body]
pub(crate) fn id_to_text(id: AccountId) -> (r: String)
    ensures
        r@ == hyphenated_text(id),
{
    uuid::Uuid::from_u128(id).to_string()
}

} // verus!
