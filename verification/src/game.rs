use vstd::prelude::*;
use vstd::string::StringExecFns;
use crate::collide::{aabb_overlap, spec_overlap, Aabb};
use crate::physics::{
    integrate_tick, spec_step_position, spec_step_velocity, spec_wall_touch, touches_wall,
    DESPAWN_X, FIELD_BOUND, FLAP_IMPULSE, GRAVITY, OBSTACLE_SIZE, OBSTACLE_SPEED, PLAYER_SIZE,
    SPAWN_PERIOD_MS, SPAWN_X, WALL_OFFSET,
};
use crate::state::{AppState, StateMachine};
use crate::text::{spec_decimal, u64_to_decimal};

verus! {

broadcast use vstd::seq_lib::group_filter_ensures;

/// Vertical velocity and the gravity that pulls on it, in tenths per tick.
#[derive(Clone, Copy)]
pub struct Movement {
    pub speed: i64,
    pub gravity: i64,
}

/// The player: a vertical position (the horizontal one is fixed at the field
/// origin) and its movement state. Its bounding box is a square of side
/// PLAYER_SIZE centered on the position.
#[derive(Clone, Copy)]
pub struct Player {
    pub y: i64,
    pub movement: Movement,
}

impl Player {
    /// The position stays inside the clamped play field, gravity is the
    /// game's constant, and the velocity never exceeds the flap impulse.
    pub open spec fn wf(self) -> bool {
        &&& -FIELD_BOUND <= self.y <= FIELD_BOUND
        &&& self.movement.gravity == GRAVITY
        &&& self.movement.speed <= FLAP_IMPULSE
    }
}

/// A static boundary wall at a fixed vertical offset.
#[derive(Clone, Copy)]
pub struct Wall {
    pub y: i64,
}

/// A transient hazard moving leftward across the field. Its bounding box is
/// a square of side OBSTACLE_SIZE centered on its position.
#[derive(Clone, Copy)]
pub struct FlyingObstacle {
    pub x: i64,
    pub y: i64,
}

/// A live obstacle sits between the field edges, at a spawnable height.
pub open spec fn obstacle_ok(o: FlyingObstacle) -> bool {
    &&& DESPAWN_X <= o.x <= SPAWN_X
    &&& -FIELD_BOUND <= o.y < FIELD_BOUND
}

/// A repeating countdown: it accumulates elapsed frame time and fires every
/// time a full period is crossed, keeping the remainder.
#[derive(Clone, Copy)]
pub struct SpawnTimer {
    pub period_ms: u64,
    pub elapsed_ms: u64,
}

impl SpawnTimer {
    pub open spec fn wf(self) -> bool {
        0 < self.period_ms && self.elapsed_ms < self.period_ms
    }

    /// A repeating timer that has not yet accumulated any time.
    pub fn new(period_ms: u64) -> (t: SpawnTimer)
        requires
            period_ms > 0,
        ensures
            t.period_ms == period_ms,
            t.elapsed_ms == 0,
            t.wf(),
    {
        SpawnTimer { period_ms, elapsed_ms: 0 }
    }

    /// Advance by the frame's elapsed time. Fires exactly when a full period
    /// is completed in this tick; the overshoot is kept, so the timer repeats
    /// indefinitely rather than terminating after the first firing.
    pub fn tick(&mut self, dt_ms: u64) -> (fired: bool)
        requires
            old(self).wf(),
            dt_ms <= u64::MAX - old(self).period_ms,
        ensures
            final(self).period_ms == old(self).period_ms,
            fired == (old(self).elapsed_ms + dt_ms >= old(self).period_ms),
            fired ==> final(self).elapsed_ms as int == (old(self).elapsed_ms + dt_ms) % (
            old(self).period_ms as int),
            !fired ==> final(self).elapsed_ms == old(self).elapsed_ms + dt_ms,
            final(self).wf(),
    {
        let total = self.elapsed_ms + dt_ms;
        if total >= self.period_ms {
            self.elapsed_ms = total % self.period_ms;
            true
        } else {
            self.elapsed_ms = total;
            false
        }
    }
}

/// The session score: one point for every obstacle that collided with the
/// player, reset to zero whenever the InGame phase is entered.
#[derive(Clone, Copy, Default)]
pub struct ScoreBoard {
    pub score: usize,
}

/// Everything the InGame phase owns: the player, the two boundary walls, the
/// live flying obstacles, the spawn timer, the scoreboard, and the score
/// label's text.
pub struct GameWorld {
    pub player: Option<Player>,
    pub walls: Vec<Wall>,
    pub obstacles: Vec<FlyingObstacle>,
    pub timer: SpawnTimer,
    pub scoreboard: ScoreBoard,
    pub score_text: Option<String>,
}

impl GameWorld {
    /// How many entities tagged as InGame-owned are live.
    pub open spec fn entity_count(self) -> int {
        (if self.player is Some { 1int } else { 0int }) + self.walls@.len()
            + self.obstacles@.len() + (if self.score_text is Some { 1int } else { 0int })
    }

    /// The shape the world has while the InGame phase is active: exactly one
    /// player, the two boundary walls, live obstacles inside the field, and
    /// the spawn timer on the game's period.
    pub open spec fn active_wf(self) -> bool {
        &&& self.player matches Some(p) && p.wf()
        &&& self.walls@.len() == 2
        &&& self.walls@[0].y == -WALL_OFFSET
        &&& self.walls@[1].y == WALL_OFFSET
        &&& forall|i: int|
            0 <= i < self.obstacles@.len() ==> obstacle_ok(#[trigger] self.obstacles@[i])
        &&& self.timer.period_ms == SPAWN_PERIOD_MS
        &&& self.timer.wf()
        &&& self.score_text is Some
    }

    /// A world with no live entities, as it stands outside the InGame phase.
    pub fn new() -> (w: GameWorld)
        ensures
            w.entity_count() == 0,
            w.player is None,
            w.walls@.len() == 0,
            w.obstacles@.len() == 0,
            w.score_text is None,
            w.scoreboard.score == 0,
            w.timer.period_ms == SPAWN_PERIOD_MS,
            w.timer.elapsed_ms == 0,
    {
        GameWorld {
            player: None,
            walls: Vec::new(),
            obstacles: Vec::new(),
            timer: SpawnTimer::new(SPAWN_PERIOD_MS),
            scoreboard: ScoreBoard { score: 0 },
            score_text: None,
        }
    }
}

/// The player's bounding box.
pub open spec fn spec_player_box(p: Player) -> Aabb {
    Aabb { cx: 0, cy: p.y, sx: PLAYER_SIZE, sy: PLAYER_SIZE }
}

/// A flying obstacle's bounding box.
pub open spec fn spec_obstacle_box(o: FlyingObstacle) -> Aabb {
    Aabb { cx: o.x, cy: o.y, sx: OBSTACLE_SIZE, sy: OBSTACLE_SIZE }
}

/// Whether an obstacle's box overlaps the player's box.
pub open spec fn spec_hits(p: Player, o: FlyingObstacle) -> bool {
    spec_overlap(spec_player_box(p), spec_obstacle_box(o))
}

/// Whether an obstacle is still on the field after moving for dt_ms.
pub open spec fn spec_keeps(o: FlyingObstacle, dt_ms: int) -> bool {
    o.x - OBSTACLE_SPEED * dt_ms >= DESPAWN_X
}

/// An obstacle after moving leftward for dt_ms.
pub open spec fn spec_shift(o: FlyingObstacle, dt_ms: int) -> FlyingObstacle {
    FlyingObstacle { x: (o.x - OBSTACLE_SPEED * dt_ms) as i64, y: o.y }
}

/// The obstacles still on the field after one frame of motion, in order.
pub open spec fn spec_moved(obs: Seq<FlyingObstacle>, dt_ms: int) -> Seq<FlyingObstacle> {
    obs.filter(|o: FlyingObstacle| spec_keeps(o, dt_ms)).map_values(
        |o: FlyingObstacle| spec_shift(o, dt_ms),
    )
}

/// The obstacles that survive one frame's motion and collision systems:
/// those still on the field after moving, minus those that hit the player.
pub open spec fn spec_survivors(obs: Seq<FlyingObstacle>, p: Player, dt_ms: int) -> Seq<
    FlyingObstacle,
> {
    spec_moved(obs, dt_ms).filter(|o: FlyingObstacle| !spec_hits(p, o))
}

/// Obstacle lifecycle, one leg: moving for a and then for b is moving for
/// a + b, for an obstacle that is still on the field after the first leg.
pub proof fn lemma_obstacle_motion_composes(o: FlyingObstacle, a: int, b: int)
    requires
        obstacle_ok(o),
        a >= 0,
        b >= 0,
        spec_keeps(o, a),
    ensures
        spec_shift(spec_shift(o, a), b) == spec_shift(o, a + b),
        spec_keeps(spec_shift(o, a), b) <==> spec_keeps(o, a + b),
{
}

/// Obstacle lifecycle, the threshold: an obstacle spawned at the right field
/// edge survives uninterrupted motion exactly while the total motion time is
/// at most 2500 milliseconds — 2.5 seconds — and is destroyed the first time
/// that bound is crossed.
pub proof fn lemma_obstacle_lifetime(o: FlyingObstacle, t_ms: int)
    requires
        o.x == SPAWN_X,
        t_ms >= 0,
    ensures
        spec_keeps(o, t_ms) <==> OBSTACLE_SPEED * t_ms <= SPAWN_X - DESPAWN_X,
        spec_keeps(o, t_ms) <==> t_ms <= 2500,
{
}

/// The InGame enter hook: create the player at the field origin with zero
/// velocity, the two boundary walls, a fresh spawn timer, a zero scoreboard,
/// and the score label.
pub fn setup_game(world: &mut GameWorld)
    ensures
        final(world).player matches Some(p) && p.y == 0 && p.movement.speed == 0
            && p.movement.gravity == GRAVITY,
        final(world).walls@.len() == 2,
        final(world).walls@[0].y == -WALL_OFFSET,
        final(world).walls@[1].y == WALL_OFFSET,
        final(world).obstacles@.len() == 0,
        final(world).timer.period_ms == SPAWN_PERIOD_MS,
        final(world).timer.elapsed_ms == 0,
        final(world).scoreboard.score == 0,
        final(world).score_text matches Some(s) && s@ == "Score"@,
        final(world).active_wf(),
{
    world.player = Some(Player { y: 0, movement: Movement { speed: 0, gravity: GRAVITY } });
    let mut walls: Vec<Wall> = Vec::new();
    walls.push(Wall { y: -WALL_OFFSET });
    walls.push(Wall { y: WALL_OFFSET });
    world.walls = walls;
    world.obstacles = Vec::new();
    world.timer = SpawnTimer::new(SPAWN_PERIOD_MS);
    world.scoreboard = ScoreBoard { score: 0 };
    world.score_text = Some("Score".to_owned());
}

/// The InGame movement hook: gravity accumulates into the vertical velocity;
/// a freshly pressed confirm key overwrites (not adds to) the velocity with
/// the flap impulse; the velocity integrates into the position; the position
/// is clamped to the play field. Resting on a clamp bound is wall contact and
/// requests the transition to GameOver.
pub fn flapping_wings(world: &mut GameWorld, machine: &mut StateMachine, pressed: bool)
    requires
        old(world).active_wf(),
        old(machine).wf(),
        old(machine).current is InGame,
        old(world).player->0.movement.speed + old(world).player->0.movement.gravity >= i64::MIN
            + 2 * FIELD_BOUND,
    ensures
        ({
            let p = old(world).player->0;
            let q = final(world).player->0;
            &&& final(world).player is Some
            &&& q.movement.gravity == p.movement.gravity
            &&& q.movement.speed as int == spec_step_velocity(
                p.movement.speed as int,
                p.movement.gravity as int,
                pressed,
            )
            &&& q.y as int == spec_step_position(
                p.y as int,
                p.movement.speed as int,
                p.movement.gravity as int,
                pressed,
            )
        }),
        final(world).walls == old(world).walls,
        final(world).obstacles == old(world).obstacles,
        final(world).timer == old(world).timer,
        final(world).scoreboard == old(world).scoreboard,
        final(world).score_text == old(world).score_text,
        final(world).active_wf(),
        final(machine).current == old(machine).current,
        final(machine).wf(),
        spec_wall_touch(final(world).player->0.y as int) ==> final(machine).pending == Some(
            AppState::GameOver,
        ),
        !spec_wall_touch(final(world).player->0.y as int) ==> final(machine).pending == old(
            machine,
        ).pending,
{
    match world.player {
        Some(player) => {
            let (new_y, new_speed) = integrate_tick(
                player.y,
                player.movement.speed,
                player.movement.gravity,
                pressed,
            );
            world.player = Some(
                Player { y: new_y, movement: Movement { speed: new_speed, gravity: player.movement.gravity } },
            );
            if touches_wall(new_y) {
                machine.set_next(AppState::GameOver);
            }
        },
        None => {},
    }
}

/// Relies on rand::random: draws an arbitrary u32; nothing is assumed of the
/// value that comes back.
#[verifier::external_body]
fn random_u32() -> u32 {
    rand::random::<u32>()
}

/// A spawn height drawn from the half-open range
/// [-FIELD_BOUND, FIELD_BOUND), whatever sample the generator produced.
fn random_spawn_y() -> (y: i64)
    ensures
        -FIELD_BOUND <= y < FIELD_BOUND,
{
    let sample = random_u32();
    let span: u32 = 4000;
    let offset = (sample % span) as i64;
    offset - FIELD_BOUND
}

/// The InGame spawn hook: advance the spawn timer by the frame's elapsed
/// time; when it completes a period, spawn one flying obstacle at the right
/// field edge at a random height. The timer is reused, so later periods keep
/// firing every SPAWN_PERIOD_MS indefinitely.
pub fn spawn_flyingobstacle(world: &mut GameWorld, dt_ms: u64)
    requires
        old(world).active_wf(),
        dt_ms <= u64::MAX - SPAWN_PERIOD_MS,
    ensures
        final(world).active_wf(),
        final(world).player == old(world).player,
        final(world).walls == old(world).walls,
        final(world).scoreboard == old(world).scoreboard,
        final(world).score_text == old(world).score_text,
        final(world).timer.period_ms == SPAWN_PERIOD_MS,
        ({
            let fired = old(world).timer.elapsed_ms + dt_ms >= SPAWN_PERIOD_MS;
            &&& fired ==> final(world).timer.elapsed_ms as int == (old(world).timer.elapsed_ms
                + dt_ms) % (SPAWN_PERIOD_MS as int)
            &&& !fired ==> final(world).timer.elapsed_ms == old(world).timer.elapsed_ms + dt_ms
            &&& fired ==> {
                &&& final(world).obstacles@.len() == old(world).obstacles@.len() + 1
                &&& final(world).obstacles@.drop_last() == old(world).obstacles@
                &&& final(world).obstacles@.last().x == SPAWN_X
                &&& -FIELD_BOUND <= final(world).obstacles@.last().y < FIELD_BOUND
            }
            &&& !fired ==> final(world).obstacles == old(world).obstacles
        }),
{
    let fired = world.timer.tick(dt_ms);
    if !fired {
        return ;
    }
    let y = random_spawn_y();
    world.obstacles.push(FlyingObstacle { x: SPAWN_X, y });
    proof {
        assert(world.obstacles@.drop_last() =~= old(world).obstacles@);
    }
}

/// filter over an obstacle sequence extended by one element.
proof fn lemma_filter_push(s: Seq<FlyingObstacle>, pred: spec_fn(FlyingObstacle) -> bool, x: FlyingObstacle)
    ensures
        pred(x) ==> s.push(x).filter(pred) == s.filter(pred).push(x),
        !pred(x) ==> s.push(x).filter(pred) == s.filter(pred),
{
    reveal_with_fuel(Seq::<FlyingObstacle>::filter, 2);
    assert(s.push(x).drop_last() =~= s);
}

/// The InGame motion hook: every flying obstacle moves leftward by the
/// elapsed time times the fixed speed; one whose position falls below the
/// left field edge is destroyed immediately — the only despawn path besides
/// collision.
#[verifier::loop_isolation(false)]
pub fn move_flyingobstcle(world: &mut GameWorld, dt_ms: u64)
    requires
        old(world).active_wf(),
        2 * dt_ms <= i64::MAX - SPAWN_X,
    ensures
        final(world).active_wf(),
        final(world).player == old(world).player,
        final(world).walls == old(world).walls,
        final(world).timer == old(world).timer,
        final(world).scoreboard == old(world).scoreboard,
        final(world).score_text == old(world).score_text,
        final(world).obstacles@ == spec_moved(old(world).obstacles@, dt_ms as int),
{
    let ghost dt = dt_ms as int;
    let ghost keeps = |o: FlyingObstacle| spec_keeps(o, dt);
    let ghost shifts = |o: FlyingObstacle| spec_shift(o, dt);
    let shift = (2 * dt_ms) as i64;
    let mut kept: Vec<FlyingObstacle> = Vec::new();
    let n = world.obstacles.len();
    let mut i: usize = 0;
    while i < n
        invariant
            n == world.obstacles@.len(),
            0 <= i <= n,
            world.obstacles == old(world).obstacles,
            old(world).active_wf(),
            shift == 2 * dt,
            2 * dt <= i64::MAX - SPAWN_X,
            kept@ == world.obstacles@.subrange(0, i as int).filter(keeps).map_values(shifts),
            forall|j: int| 0 <= j < kept@.len() ==> obstacle_ok(#[trigger] kept@[j]),
        decreases n - i,
    {
        let o = world.obstacles[i];
        proof {
            assert(obstacle_ok(world.obstacles@[i as int]));
            assert(world.obstacles@.subrange(0, i as int + 1) =~= world.obstacles@.subrange(
                0,
                i as int,
            ).push(o));
            lemma_filter_push(world.obstacles@.subrange(0, i as int), keeps, o);
        }
        let nx = o.x - shift;
        if nx >= DESPAWN_X {
            kept.push(FlyingObstacle { x: nx, y: o.y });
            proof {
                assert(FlyingObstacle { x: nx, y: o.y } == spec_shift(o, dt));
                assert(world.obstacles@.subrange(0, i as int).filter(keeps).push(o).map_values(
                    shifts,
                ) =~= world.obstacles@.subrange(0, i as int).filter(keeps).map_values(shifts).push(
                    spec_shift(o, dt),
                ));
            }
        }
        i += 1;
    }
    proof {
        assert(world.obstacles@.subrange(0, n as int) =~= world.obstacles@);
    }
    world.obstacles = kept;
}

/// The player's bounding box as a value.
fn player_box(p: &Player) -> (b: Aabb)
    ensures
        b == spec_player_box(*p),
{
    Aabb { cx: 0, cy: p.y, sx: PLAYER_SIZE, sy: PLAYER_SIZE }
}

/// A flying obstacle's bounding box as a value.
fn obstacle_box(o: &FlyingObstacle) -> (b: Aabb)
    ensures
        b == spec_obstacle_box(*o),
{
    Aabb { cx: o.x, cy: o.y, sx: OBSTACLE_SIZE, sy: OBSTACLE_SIZE }
}

/// The InGame collision hook: test every flying obstacle's box against the
/// player's box. Every overlapping obstacle is destroyed and scores exactly
/// one point; an already-destroyed obstacle cannot score again; the others
/// survive in order. Walls take no part in this test.
#[verifier::loop_isolation(false)]
pub fn collide_flyingobstacle(world: &mut GameWorld)
    requires
        old(world).active_wf(),
        old(world).scoreboard.score + old(world).obstacles@.len() <= usize::MAX,
    ensures
        final(world).active_wf(),
        final(world).player == old(world).player,
        final(world).walls == old(world).walls,
        final(world).timer == old(world).timer,
        final(world).score_text == old(world).score_text,
        final(world).obstacles@ == old(world).obstacles@.filter(
            (|o: FlyingObstacle| !spec_hits(old(world).player->0, o)),
        ),
        final(world).scoreboard.score == old(world).scoreboard.score + old(
            world,
        ).obstacles@.len() - final(world).obstacles@.len(),
        final(world).scoreboard.score >= old(world).scoreboard.score,
{
    let ghost misses = |o: FlyingObstacle| !spec_hits(old(world).player->0, o);
    match world.player {
        Some(player) => {
            let pbox = player_box(&player);
            let mut kept: Vec<FlyingObstacle> = Vec::new();
            let mut score = world.scoreboard.score;
            let n = world.obstacles.len();
            let mut i: usize = 0;
            while i < n
                invariant
                    n == world.obstacles@.len(),
                    0 <= i <= n,
                    world.obstacles == old(world).obstacles,
                    world.player == old(world).player,
                    old(world).active_wf(),
                    old(world).scoreboard.score + n <= usize::MAX,
                    player == old(world).player->0,
                    pbox == spec_player_box(player),
                    kept@ == world.obstacles@.subrange(0, i as int).filter(misses),
                    kept@.len() <= i,
                    score == old(world).scoreboard.score + i - kept@.len(),
                    forall|j: int| 0 <= j < kept@.len() ==> obstacle_ok(#[trigger] kept@[j]),
                decreases n - i,
            {
                let o = world.obstacles[i];
                proof {
                    assert(obstacle_ok(world.obstacles@[i as int]));
                    assert(world.obstacles@.subrange(0, i as int + 1) =~= world.obstacles@
                        .subrange(0, i as int).push(o));
                    lemma_filter_push(world.obstacles@.subrange(0, i as int), misses, o);
                }
                let obox = obstacle_box(&o);
                if aabb_overlap(&pbox, &obox) {
                    score = score + 1;
                } else {
                    kept.push(o);
                }
                i += 1;
            }
            proof {
                assert(world.obstacles@.subrange(0, n as int) =~= world.obstacles@);
            }
            world.obstacles = kept;
            world.scoreboard = ScoreBoard { score };
        },
        None => {},
    }
}

/// The InGame label hook: bind the score label's text to the scoreboard's
/// current value, formatted as plain decimal text.
pub fn text_score_update(world: &mut GameWorld)
    requires
        old(world).active_wf(),
    ensures
        final(world).active_wf(),
        final(world).player == old(world).player,
        final(world).walls == old(world).walls,
        final(world).obstacles == old(world).obstacles,
        final(world).timer == old(world).timer,
        final(world).scoreboard == old(world).scoreboard,
        final(world).score_text matches Some(s) && s@ == spec_decimal(
            old(world).scoreboard.score as int,
        ),
{
    let s = u64_to_decimal(world.scoreboard.score as u64);
    world.score_text = Some(s);
}

/// The InGame exit hook: destroy every entity tagged Player, Obstacle,
/// FlyingObstacle or ScoreText, reset the scoreboard to zero, and drop the
/// spawn timer so the next entry starts one afresh.
pub fn cleanup_ingame(world: &mut GameWorld)
    ensures
        final(world).entity_count() == 0,
        final(world).player is None,
        final(world).walls@.len() == 0,
        final(world).obstacles@.len() == 0,
        final(world).score_text is None,
        final(world).scoreboard.score == 0,
        final(world).timer.period_ms == SPAWN_PERIOD_MS,
        final(world).timer.elapsed_ms == 0,
{
    world.player = None;
    world.walls = Vec::new();
    world.obstacles = Vec::new();
    world.timer = SpawnTimer::new(SPAWN_PERIOD_MS);
    world.scoreboard = ScoreBoard { score: 0 };
    world.score_text = None;
}

/// The InGame phase's hooks, gathered as one interface: enter, per-frame
/// update, exit.
pub struct GamePlugin;

impl GamePlugin {
    /// Runs when the InGame phase is entered.
    pub fn on_enter(world: &mut GameWorld)
        ensures
            final(world).active_wf(),
            final(world).player matches Some(p) && p.y == 0 && p.movement.speed == 0
                && p.movement.gravity == GRAVITY,
            final(world).obstacles@.len() == 0,
            final(world).scoreboard.score == 0,
            final(world).timer.period_ms == SPAWN_PERIOD_MS,
            final(world).timer.elapsed_ms == 0,
            final(world).score_text matches Some(s) && s@ == "Score"@,
    {
        setup_game(world);
    }

    /// Runs when the InGame phase is left.
    pub fn on_exit(world: &mut GameWorld)
        ensures
            final(world).entity_count() == 0,
            final(world).scoreboard.score == 0,
            final(world).timer.period_ms == SPAWN_PERIOD_MS,
            final(world).timer.elapsed_ms == 0,
    {
        cleanup_ingame(world);
    }

    /// One InGame frame: player motion, obstacle motion, collision scoring,
    /// obstacle spawning, score label. Entity creation is deferred in the host's
    /// scheduler, so a just-spawned obstacle is neither moved nor
    /// collision-tested before the next tick; it first appears at the right
    /// field edge.
    pub fn on_update(world: &mut GameWorld, machine: &mut StateMachine, pressed: bool, dt_ms: u64)
        requires
            old(world).active_wf(),
            old(machine).wf(),
            old(machine).current is InGame,
            old(machine).pending is None,
            old(world).player->0.movement.speed + old(world).player->0.movement.gravity >= i64::MIN
                + 2 * FIELD_BOUND,
            dt_ms <= u64::MAX - SPAWN_PERIOD_MS,
            2 * dt_ms <= i64::MAX - SPAWN_X,
            old(world).scoreboard.score + old(world).obstacles@.len() + 1 <= usize::MAX,
        ensures
            final(world).active_wf(),
            final(machine).wf(),
            final(machine).current == old(machine).current,
            final(world).walls == old(world).walls,
            // the spawn timer accumulates the frame's time and wraps on firing
            final(world).timer.period_ms == SPAWN_PERIOD_MS,
            ({
                let total = old(world).timer.elapsed_ms + dt_ms;
                if total >= SPAWN_PERIOD_MS {
                    final(world).timer.elapsed_ms as int == total % (SPAWN_PERIOD_MS as int)
                } else {
                    final(world).timer.elapsed_ms == total
                }
            }),
            // the player integrates gravity, flap impulse, and the clamp
            ({
                let p = old(world).player->0;
                let q = final(world).player->0;
                &&& final(world).player is Some
                &&& q.movement.gravity == p.movement.gravity
                &&& q.movement.speed as int == spec_step_velocity(
                    p.movement.speed as int,
                    p.movement.gravity as int,
                    pressed,
                )
                &&& q.y as int == spec_step_position(
                    p.y as int,
                    p.movement.speed as int,
                    p.movement.gravity as int,
                    pressed,
                )
            }),
            // wall contact is the one and only way out of InGame
            spec_wall_touch(final(world).player->0.y as int) <==> final(machine).pending == Some(
                AppState::GameOver,
            ),
            !spec_wall_touch(final(world).player->0.y as int) ==> final(machine).pending is None,
            // the obstacles move and despawn, the remaining ones are collision
            // scored, and a completed timer period then spawns one newcomer at
            // the right field edge at a random height
            ({
                let q = final(world).player->0;
                let dt = dt_ms as int;
                let fired = old(world).timer.elapsed_ms + dt_ms >= SPAWN_PERIOD_MS;
                let survivors = spec_survivors(old(world).obstacles@, q, dt);
                &&& final(world).scoreboard.score == old(world).scoreboard.score + spec_moved(
                    old(world).obstacles@,
                    dt,
                ).len() - survivors.len()
                &&& if fired {
                    exists|ry: i64|
                        #![auto]
                        {
                            &&& -FIELD_BOUND <= ry < FIELD_BOUND
                            &&& final(world).obstacles@ == survivors.push(
                                (FlyingObstacle { x: SPAWN_X, y: ry }),
                            )
                        }
                } else {
                    final(world).obstacles@ == survivors
                }
            }),
            // the score never decreases within a session
            final(world).scoreboard.score >= old(world).scoreboard.score,
            // the label shows the final score as plain decimal text
            final(world).score_text matches Some(s) && s@ == spec_decimal(
                final(world).scoreboard.score as int,
            ),
    {
        let ghost dt = dt_ms as int;
        let ghost fired = old(world).timer.elapsed_ms + dt_ms >= SPAWN_PERIOD_MS;
        flapping_wings(world, machine, pressed);
        let ghost q = world.player->0;
        move_flyingobstcle(world, dt_ms);
        proof {
            assert(world.obstacles@ == spec_moved(old(world).obstacles@, dt));
            assert(spec_moved(old(world).obstacles@, dt).len() <= old(world).obstacles@.len());
        }
        collide_flyingobstacle(world);
        proof {
            assert(world.obstacles@ == spec_survivors(old(world).obstacles@, q, dt));
        }
        spawn_flyingobstacle(world, dt_ms);
        text_score_update(world);
        proof {
            if fired {
                let ry = world.obstacles@.last().y;
                assert(world.obstacles@ == spec_survivors(old(world).obstacles@, q, dt).push(
                    (FlyingObstacle { x: SPAWN_X, y: ry }),
                ));
            }
        }
    }
}

} // verus!
