//! Dice: the one source of chance in an encounter.

use vstd::prelude::*;

use rand::Rng;

verus! {

/// Relies on `rand::thread_rng().gen_range(1..=faces)`: a value drawn from
/// `1..=faces`. It panics only on an empty range, which `faces >= 1` rules out.
#[verifier::external_body]
fn roll_die(faces: i32) -> (r: i32)
    requires
        faces >= 1,
    ensures
        1 <= r <= faces,
{
    rand::thread_rng().gen_range(1..=faces)
}

/// Rolls one twenty-sided die.
pub fn roll_d20() -> (r: i32)
    ensures
        1 <= r <= 20,
{
    roll_die(20)
}

/// The most dice that one damage roll may hold.
pub const MAX_DAMAGE_DICE: u64 = 0x8000_0000;

/// The sum of `count` rolls of a die with `faces` faces.
pub fn roll_damage(count: u64, faces: i32) -> (r: i64)
    requires
        1 <= count <= MAX_DAMAGE_DICE,
        faces >= 1,
    ensures
        count <= r <= count * faces,
{
    let mut total: i64 = 0;
    let mut i: u64 = 0;
    while i < count
        invariant
            i <= count <= MAX_DAMAGE_DICE,
            1 <= faces,
            i <= total <= i * faces,
        decreases count - i,
    {
        let d = roll_die(faces);
        proof {
            assert((i + 1) * faces == i * faces + faces) by (nonlinear_arith);
            assert((i + 1) * faces <= MAX_DAMAGE_DICE * faces) by (nonlinear_arith)
                requires
                    i + 1 <= MAX_DAMAGE_DICE,
                    faces >= 1,
            ;
        }
        total = total + d as i64;
        i = i + 1;
    }
    total
}

} // verus!
