use vstd::prelude::*;

verus! {

// All positions and velocities are held in fixed point: tenths of a field
// unit. Time is held in milliseconds. Every quantity of the game's rules is
// exact in this grid:
//   gravity        -0.1 units per tick   ->  -1 tenth per tick
//   flap impulse    3.0 units per tick   ->  30 tenths per tick
//   play-field bound +-200 units         ->  +-2000 tenths
//   wall offset      +-250 units         ->  +-2500 tenths
//   obstacle speed  200 units per second ->   2 tenths per millisecond

/// Downward pull added to the vertical velocity every tick, in tenths per tick.
pub const GRAVITY: i64 = -1;

/// The velocity a flap overwrites the vertical velocity with, in tenths per tick.
pub const FLAP_IMPULSE: i64 = 30;

/// The player's vertical position is clamped to [-FIELD_BOUND, FIELD_BOUND].
pub const FIELD_BOUND: i64 = 2000;

/// Vertical offset of the two static boundary walls, in tenths.
pub const WALL_OFFSET: i64 = 2500;

/// Horizontal position at which a flying obstacle spawns, in tenths.
pub const SPAWN_X: i64 = 2500;

/// A flying obstacle despawns once its horizontal position drops below this.
pub const DESPAWN_X: i64 = -2500;

/// Leftward speed of a flying obstacle, in tenths per millisecond.
pub const OBSTACLE_SPEED: i64 = 2;

/// Side length of the player's square bounding box, in tenths.
pub const PLAYER_SIZE: i64 = 500;

/// Side length of a flying obstacle's square bounding box, in tenths.
pub const OBSTACLE_SIZE: i64 = 300;

/// Period of the obstacle spawn timer, in milliseconds.
pub const SPAWN_PERIOD_MS: u64 = 2000;

/// A vertical position pulled back into the closed play field
/// [-FIELD_BOUND, FIELD_BOUND].
pub open spec fn spec_clamp(p: int) -> int {
    if p > FIELD_BOUND as int {
        FIELD_BOUND as int
    } else if p < -(FIELD_BOUND as int) {
        -(FIELD_BOUND as int)
    } else {
        p
    }
}

/// A clamped position touches a wall exactly when it sits on a clamp bound.
pub open spec fn spec_wall_touch(p: int) -> bool {
    p == FIELD_BOUND as int || p == -(FIELD_BOUND as int)
}

/// Clamping is the min/max of the two bounds, and the clamped position
/// touches a wall exactly when the raw position reached or passed a bound.
pub proof fn lemma_clamp(p: int)
    ensures
        spec_clamp(p) == vstd::math::min(FIELD_BOUND as int, vstd::math::max(-(FIELD_BOUND as int), p)),
        spec_wall_touch(spec_clamp(p)) <==> (p >= FIELD_BOUND as int || p <= -(FIELD_BOUND as int)),
        -(FIELD_BOUND as int) <= spec_clamp(p) <= FIELD_BOUND as int,
{
}

/// Pull a vertical position back into the play field.
pub fn clamp_position(p: i64) -> (r: i64)
    ensures
        r as int == spec_clamp(p as int),
        -FIELD_BOUND <= r <= FIELD_BOUND,
{
    if p > FIELD_BOUND {
        FIELD_BOUND
    } else if p < -FIELD_BOUND {
        -FIELD_BOUND
    } else {
        p
    }
}

/// Whether a clamped vertical position rests on a boundary wall.
pub fn touches_wall(p: i64) -> (b: bool)
    ensures
        b == spec_wall_touch(p as int),
{
    p == FIELD_BOUND || p == -FIELD_BOUND
}

/// The vertical velocity after one tick: gravity accumulates into the
/// velocity, and a flap then overwrites it with the fixed impulse.
pub open spec fn spec_step_velocity(speed: int, gravity: int, flap: bool) -> int {
    if flap {
        FLAP_IMPULSE as int
    } else {
        speed + gravity
    }
}

/// The vertical position after one tick: the stepped velocity is added and
/// the sum is clamped to the play field.
pub open spec fn spec_step_position(y: int, speed: int, gravity: int, flap: bool) -> int {
    spec_clamp(y + spec_step_velocity(speed, gravity, flap))
}

/// One tick of vertical motion. Returns the new position and velocity:
/// without a flap the velocity gains gravity and the position gains the new
/// velocity; with a flap the velocity is overwritten (not added to) by the
/// impulse before the position is integrated. The position is then clamped.
pub fn integrate_tick(y: i64, speed: i64, gravity: i64, flap: bool) -> (r: (i64, i64))
    requires
        -FIELD_BOUND <= y <= FIELD_BOUND,
        i64::MIN + 2 * FIELD_BOUND <= speed + gravity <= i64::MAX - 2 * FIELD_BOUND,
    ensures
        r.1 as int == spec_step_velocity(speed as int, gravity as int, flap),
        r.0 as int == spec_step_position(y as int, speed as int, gravity as int, flap),
        -FIELD_BOUND <= r.0 <= FIELD_BOUND,
{
    let mut new_speed = speed + gravity;
    if flap {
        new_speed = FLAP_IMPULSE;
    }
    let new_y = clamp_position(y + new_speed);
    (new_y, new_speed)
}

} // verus!
