use vstd::prelude::*;

verus! {

/// Opaque unique account identifier: the 128 bits of a version-4 UUID,
/// immutable once assigned to a record.
#[derive(Clone, Copy, PartialEq, Eq, Structural, Debug, Hash)]
pub struct UserId {
    pub value: u128,
}

/// Relies on uuid::Uuid::new_v4: a freshly drawn random 122-bit identifier
/// widened to 128 bits. Nothing is assumed of the value; every caller states
/// what holds of every outcome.
#[verifier::external_body]
pub(crate) fn random_user_id() -> UserId {
    UserId { value: uuid::Uuid::new_v4().as_u128() }
}

} // verus!
