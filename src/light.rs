//! The light animator's rotation as a function of elapsed time.
use vstd::prelude::*;

use crate::transform::{EulerOrder, Rotation};

verus! {

/// Time for one full turn of the light, in milliseconds.
pub const SPIN_PERIOD_MS: u64 = 10000;

/// A full turn, in thousandths of a degree.
pub const FULL_TURN: i64 = 360000;

/// The fixed tilt of the light, in thousandths of a degree.
pub const TILT: i64 = -45000;

/// The light's rotation `t` milliseconds after start: no turn about z, a turn
/// about y that completes every ten seconds, and the fixed tilt about x.
pub open spec fn light_rotation_spec(t: u64) -> Rotation {
    Rotation {
        order: EulerOrder::Zyx,
        first: 0,
        second: ((t % SPIN_PERIOD_MS) as int * FULL_TURN / SPIN_PERIOD_MS as int) as i64,
        third: TILT,
    }
}

/// The light's rotation `elapsed_ms` milliseconds after start.
pub fn light_rotation(elapsed_ms: u64) -> (r: Rotation)
    ensures
        r == light_rotation_spec(elapsed_ms),
        r.second as int == (elapsed_ms % SPIN_PERIOD_MS) as int * FULL_TURN / SPIN_PERIOD_MS as int,
        0 <= r.second < FULL_TURN,
        r.third == TILT,
{
    let phase: u64 = elapsed_ms % SPIN_PERIOD_MS;
    let spin: i64 = (phase as i64) * 36;
    assert(spin as int == phase as int * FULL_TURN / SPIN_PERIOD_MS as int) by (nonlinear_arith)
        requires
            spin as int == phase as int * 36,
            0 <= phase < 10000,
    ;
    Rotation { order: EulerOrder::Zyx, first: 0, second: spin, third: TILT }
}

/// The rotation depends on the phase within the period alone: it is the same
/// one period later, and the same when the time is held.
pub proof fn lemma_light_rotation_periodic(t: u64)
    requires
        t + SPIN_PERIOD_MS <= u64::MAX,
    ensures
        light_rotation_spec((t + SPIN_PERIOD_MS) as u64) == light_rotation_spec(t),
{
    assert(((t + SPIN_PERIOD_MS) as u64) % SPIN_PERIOD_MS == t % SPIN_PERIOD_MS);
}

} // verus!
