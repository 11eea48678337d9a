//! The ways an encounter operation can be turned down.

use vstd::prelude::*;

verus! {

/// Why an operation on the encounter did not take place. In each case the
/// roster is left as it was.
#[derive(Clone, Copy, Debug, PartialEq, Eq, Structural)]
pub enum EncounterError {
    /// A monster type or an action that the catalog does not hold.
    LookupFailure,
    /// A roster number outside `1..=len`, or a field selector outside the
    /// editable fields.
    RangeError,
    /// An attacker that is a player: only monsters attack through the catalog.
    PlayerAttacker,
    /// An action whose damage dice are not a count and a face number, both
    /// at least 1.
    InvalidDice,
    /// A change of hit points whose result does not fit in an `i32`.
    HitPointOverflow,
}

} // verus!
