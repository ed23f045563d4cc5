//! The die: the one source of chance in the game.
use vstd::prelude::*;
use rand::Rng;

verus! {

/// Number of faces of the die; a roll lies in `1..=DIE_FACES`.
pub const DIE_FACES: i32 = 6;

/// Relies on `rand::thread_rng` and `rand::Rng::gen_range` over an inclusive
/// range: the value drawn lies in `low..=high`, and the call panics only on
/// an empty range, which `requires` leaves out.
#[verifier::external_body]
fn random_in_range(low: i32, high: i32) -> (r: i32)
    requires
        low <= high,
    ensures
        low <= r <= high,
{
    rand::thread_rng().gen_range(low..=high)
}

/// Rolls the die once.
pub fn roll_dice() -> (r: i32)
    ensures
        1 <= r <= DIE_FACES,
{
    random_in_range(1, DIE_FACES)
}

} // verus!
