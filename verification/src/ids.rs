//! Opaque identities for characters and encounters.
//!
//! An identity is the 128-bit value of a version-4 UUID. Drawing a fresh
//! identity and rendering one as text are the only places the engine relies
//! on the `uuid` crate.

use vstd::prelude::*;

verus! {

/// The identity of a character or an encounter: the 128-bit value of a
/// version-4 UUID, unique for the process lifetime.
#[derive(Clone, Copy, Debug, PartialEq, Eq, Hash, Structural)]
pub struct Uid {
    pub value: u128,
}

/// The hyphenated text form of the UUID with the given 128-bit value.
pub uninterp spec fn uuid_text(value: u128) -> Seq<char>;

/// Relies on `uuid::Uuid::new_v4`: a freshly drawn random version-4 UUID,
/// read back as its 128-bit value. The value is random, so nothing is
/// promised of it.
#[verifier::external_body]
fn random_uuid_value() -> (r: u128) {
    uuid::Uuid::new_v4().as_u128()
}

/// Relies on `uuid::Uuid::from_u128` and the `Display` impl of `uuid::Uuid`:
/// the hyphenated lower-case text form, always 36 characters, determined by
/// the 128-bit value alone.
#[verifier::external_body]
fn uuid_value_to_text(value: u128) -> (r: String)
    ensures
        r@ == uuid_text(value),
        r@.len() == 36,
{
    uuid::Uuid::from_u128(value).to_string()
}

impl Uid {
    /// Draw a fresh, random identity.
    pub fn fresh() -> Uid {
        Uid { value: random_uuid_value() }
    }

    /// The identity in its hyphenated text form.
    pub fn text(&self) -> (r: String)
        ensures
            r@ == uuid_text(self.value),
            r@.len() == 36,
    {
        uuid_value_to_text(self.value)
    }
}

} // verus!
