use vstd::prelude::*;
use crate::draw::uniform_in;

verus! {

/// Micro-units in one world unit.
pub const UNIT: i64 = 1_000_000;

/// Downward speed of every emitter, in world units per second. With lengths
/// in micro-units and time in microseconds, it is also the drop in micro-units
/// per microsecond.
pub const FALL_SPEED: i64 = 10;

/// Distance of the camera from the plane in which the emitters fall, in
/// micro-units.
pub const CAMERA_Z: i64 = 100 * UNIT;

/// The render layer that the camera and the emitters share.
pub const SCENE_LAYER: u8 = 3;

/// Number of emitters in one wave.
pub const WAVE_SIZE: usize = 10;

/// A new emitter appears at a horizontal offset drawn from
/// `SPAWN_X_MIN..SPAWN_X_MAX`, in micro-units.
pub const SPAWN_X_MIN: i64 = -50 * UNIT;

/// Upper end, excluded, of the horizontal offsets of new emitters.
pub const SPAWN_X_MAX: i64 = 50 * UNIT;

/// Height at which a new emitter appears, in micro-units.
pub const SPAWN_Y: i64 = 30 * UNIT;

/// An emitter whose height is below this floor (in micro-units) is removed.
pub const FLOOR_Y: i64 = -25 * UNIT;

/// Height after falling for `dt` microseconds from `y`, held at the lowest
/// value an `i64` can take.
pub open spec fn drifted(y: int, dt: int) -> int {
    if y - FALL_SPEED * dt < i64::MIN {
        i64::MIN as int
    } else {
        y - FALL_SPEED * dt
    }
}

/// Whether an emitter at height `y` has fallen past the floor.
pub open spec fn below_floor(y: int) -> bool {
    y < FLOOR_Y
}

/// The height reached from `y` after `dt` microseconds of fall.
pub fn drift(y: i64, dt: u64) -> (r: i64)
    ensures
        r == drifted(y as int, dt as int),
{
    assert(FALL_SPEED * (dt as int) <= 10 * 0x1_0000_0000_0000_0000) by (nonlinear_arith)
        requires
            dt <= u64::MAX,
            FALL_SPEED == 10,
    ;
    let drop: i128 = (FALL_SPEED as i128) * (dt as i128);
    let low: i128 = y as i128 - drop;
    if low < i64::MIN as i128 {
        i64::MIN
    } else {
        low as i64
    }
}

/// Whether an emitter at height `y` is to be removed.
pub fn has_fallen(y: i64) -> (r: bool)
    ensures
        r == below_floor(y as int),
{
    y < FLOOR_Y
}

/// Falling for `a` and then for `b` microseconds brings an emitter to the
/// same height as falling for `a + b` microseconds at once: how the time of a
/// run is cut into frames does not change where the emitters are.
pub proof fn lemma_fall_composes(y: int, a: nat, b: nat)
    requires
        i64::MIN <= y <= i64::MAX,
    ensures
        drifted(drifted(y, a as int), b as int) == drifted(y, (a + b) as int),
{
}

/// Falling never raises an emitter, and the longer it falls the lower it gets.
pub proof fn lemma_fall_monotone(y: int, a: nat, b: nat)
    requires
        i64::MIN <= y <= i64::MAX,
        a <= b,
    ensures
        drifted(y, b as int) <= drifted(y, a as int) <= y,
{
}

/// A new emitter is past the floor exactly when it has fallen for more than
/// the time it takes to cover the distance from the spawn height to the floor.
pub proof fn lemma_fallen_after(dt: nat)
    ensures
        below_floor(drifted(SPAWN_Y as int, dt as int)) <==> dt > (SPAWN_Y as int - FLOOR_Y as int)
            / (FALL_SPEED as int),
{
}

/// An emitter's place in the vertical plane of the scene, in micro-units.
#[derive(Clone, Copy, Debug, PartialEq, Eq, Structural)]
pub struct Emitter {
    pub x: i64,
    pub y: i64,
}

impl Emitter {
    /// A new emitter at horizontal offset `x`, at the spawn height.
    pub fn spawned_at(x: i64) -> (e: Emitter)
        ensures
            e == (Emitter { x, y: SPAWN_Y }),
    {
        Emitter { x, y: SPAWN_Y }
    }

    /// Lets the emitter fall for `dt` microseconds.
    pub fn fall(&mut self, dt: u64)
        ensures
            final(self).x == old(self).x,
            final(self).y == drifted(old(self).y as int, dt as int),
    {
        self.y = drift(self.y, dt);
    }

    /// Whether the emitter has fallen past the floor and is to be removed.
    pub fn is_fallen(&self) -> (r: bool)
        ensures
            r == below_floor(self.y as int),
    {
        has_fallen(self.y)
    }
}

/// Emitters at the spawn height, one at each of the offsets `xs`, in order.
pub fn wave_at(xs: &Vec<i64>) -> (w: Vec<Emitter>)
    ensures
        w@.len() == xs@.len(),
        forall|i: int| 0 <= i < xs@.len() ==> #[trigger] w@[i] == (Emitter { x: xs@[i], y: SPAWN_Y }),
{
    let mut w: Vec<Emitter> = Vec::new();
    let mut i: usize = 0;
    while i < xs.len()
        invariant
            i <= xs@.len(),
            w@.len() == i,
            forall|j: int| 0 <= j < i ==> #[trigger] w@[j] == (Emitter { x: xs@[j], y: SPAWN_Y }),
        decreases xs@.len() - i,
    {
        w.push(Emitter::spawned_at(xs[i]));
        i = i + 1;
    }
    w
}

/// A new wave: `WAVE_SIZE` emitters at the spawn height, each at a horizontal
/// offset drawn at random from `SPAWN_X_MIN..SPAWN_X_MAX`.
pub fn new_wave() -> (w: Vec<Emitter>)
    ensures
        w@.len() == WAVE_SIZE,
        forall|i: int|
            0 <= i < w@.len() ==> #[trigger] w@[i].y == SPAWN_Y && SPAWN_X_MIN <= w@[i].x
                < SPAWN_X_MAX,
{
    let mut xs: Vec<i64> = Vec::new();
    let mut k: usize = 0;
    while k < WAVE_SIZE
        invariant
            k <= WAVE_SIZE,
            xs@.len() == k,
            forall|j: int| 0 <= j < k ==> SPAWN_X_MIN <= #[trigger] xs@[j] < SPAWN_X_MAX,
        decreases WAVE_SIZE - k,
    {
        xs.push(uniform_in(SPAWN_X_MIN, SPAWN_X_MAX));
        k = k + 1;
    }
    wave_at(&xs)
}

} // verus!
