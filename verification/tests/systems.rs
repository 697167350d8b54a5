use flappy::collide::{aabb_overlap, Aabb};
use flappy::game::{
    cleanup_ingame, collide_flyingobstacle, move_flyingobstcle, setup_game, spawn_flyingobstacle,
    text_score_update, FlyingObstacle, GameWorld, Movement, Player, ScoreBoard, SpawnTimer,
};
use flappy::physics::{clamp_position, integrate_tick, touches_wall};
use flappy::text::u64_to_decimal;

fn active_world() -> GameWorld {
    let mut w = GameWorld::new();
    setup_game(&mut w);
    w
}

#[test]
fn clamp_inside_and_at_bounds() {
    assert_eq!(clamp_position(37), 37);
    assert_eq!(clamp_position(2000), 2000);
    assert_eq!(clamp_position(-2000), -2000);
    assert_eq!(clamp_position(2001), 2000);
    assert_eq!(clamp_position(2500), 2000);
    assert_eq!(clamp_position(-2500), -2000);
    assert_eq!(clamp_position(i64::MAX), 2000);
    assert_eq!(clamp_position(i64::MIN), -2000);
}

#[test]
fn wall_touch_only_at_clamp_bounds() {
    assert!(touches_wall(2000));
    assert!(touches_wall(-2000));
    assert!(!touches_wall(1999));
    assert!(!touches_wall(-1999));
    assert!(!touches_wall(0));
}

#[test]
fn gravity_accumulates_without_input() {
    // velocity v and gravity g give new velocity v + g and new position p + (v + g)
    let (y, v) = integrate_tick(100, 5, -1, false);
    assert_eq!(v, 4);
    assert_eq!(y, 104);
    let (y2, v2) = integrate_tick(0, 0, -1, false);
    assert_eq!(v2, -1);
    assert_eq!(y2, -1);
}

#[test]
fn flap_overwrites_velocity() {
    // a confirm edge overwrites the velocity with 3.0 units (30 tenths),
    // it does not add to it
    let (y, v) = integrate_tick(100, -25, -1, true);
    assert_eq!(v, 30);
    assert_eq!(y, 130);
}

#[test]
fn integration_clamps_at_walls() {
    let (y, v) = integrate_tick(-1995, -10, -1, false);
    assert_eq!(v, -11);
    assert_eq!(y, -2000);
    assert!(touches_wall(y));
    let (y2, _) = integrate_tick(1990, 29, -1, true);
    assert_eq!(y2, 2000);
    assert!(touches_wall(y2));
}

#[test]
fn aabb_overlap_strict_on_each_axis() {
    // |c1 - c2| < (s1 + s2) / 2 on both axes; 500 and 300 give 400
    let player = Aabb { cx: 0, cy: 0, sx: 500, sy: 500 };
    let near = Aabb { cx: 399, cy: 0, sx: 300, sy: 300 };
    let at_bound = Aabb { cx: 400, cy: 0, sx: 300, sy: 300 };
    let above = Aabb { cx: 0, cy: 399, sx: 300, sy: 300 };
    let above_bound = Aabb { cx: 0, cy: 400, sx: 300, sy: 300 };
    let corner = Aabb { cx: 399, cy: 399, sx: 300, sy: 300 };
    assert!(aabb_overlap(&player, &near));
    assert!(!aabb_overlap(&player, &at_bound));
    assert!(aabb_overlap(&player, &above));
    assert!(!aabb_overlap(&player, &above_bound));
    assert!(aabb_overlap(&player, &corner));
}

#[test]
fn decimal_text_of_numbers() {
    assert_eq!(u64_to_decimal(0).as_str(), "0");
    assert_eq!(u64_to_decimal(7).as_str(), "7");
    assert_eq!(u64_to_decimal(10).as_str(), "10");
    assert_eq!(u64_to_decimal(105).as_str(), "105");
    assert_eq!(u64_to_decimal(2000).as_str(), "2000");
    assert_eq!(u64_to_decimal(u64::MAX).as_str(), "18446744073709551615");
}

#[test]
fn timer_fires_on_period_and_repeats() {
    let mut t = SpawnTimer::new(2000);
    assert!(!t.tick(1999));
    assert_eq!(t.elapsed_ms, 1999);
    assert!(t.tick(1));
    assert_eq!(t.elapsed_ms, 0);
    assert!(!t.tick(500));
    assert!(t.tick(4500));
    assert_eq!(t.elapsed_ms, 1000);
}

#[test]
fn setup_game_creates_the_session() {
    let w = active_world();
    let p = w.player.unwrap();
    assert_eq!(p.y, 0);
    assert_eq!(p.movement.speed, 0);
    assert_eq!(p.movement.gravity, -1);
    assert_eq!(w.walls.len(), 2);
    assert_eq!(w.walls[0].y, -2500);
    assert_eq!(w.walls[1].y, 2500);
    assert_eq!(w.obstacles.len(), 0);
    assert_eq!(w.scoreboard.score, 0);
    assert_eq!(w.timer.period_ms, 2000);
    assert_eq!(w.timer.elapsed_ms, 0);
    assert_eq!(w.score_text.as_ref().unwrap().as_str(), "Score");
}

#[test]
fn spawner_waits_for_a_full_period() {
    let mut w = active_world();
    spawn_flyingobstacle(&mut w, 1999);
    assert_eq!(w.obstacles.len(), 0);
    spawn_flyingobstacle(&mut w, 1);
    assert_eq!(w.obstacles.len(), 1);
    // the newcomer stands at the right field edge, at a height inside the field
    assert_eq!(w.obstacles[0].x, 2500);
    assert!(-2000 <= w.obstacles[0].y && w.obstacles[0].y < 2000);
    // the timer repeats: another full period spawns another obstacle
    spawn_flyingobstacle(&mut w, 2000);
    assert_eq!(w.obstacles.len(), 2);
}

#[test]
fn obstacles_move_left_and_despawn_past_the_edge() {
    let mut w = active_world();
    w.obstacles.push(FlyingObstacle { x: 2500, y: 0 });
    // 200 units per second is 2 tenths per millisecond
    move_flyingobstcle(&mut w, 1);
    assert_eq!(w.obstacles[0].x, 2498);
    move_flyingobstcle(&mut w, 2499);
    assert_eq!(w.obstacles[0].x, -2500);
    assert_eq!(w.obstacles.len(), 1);
    // one more millisecond drops it below the left edge: destroyed
    move_flyingobstcle(&mut w, 1);
    assert_eq!(w.obstacles.len(), 0);
}

#[test]
fn obstacle_lifetime_is_2500_milliseconds() {
    // spawned at x = 250 units, moving 200 units per second: gone first
    // strictly after 2.5 simulated seconds of uninterrupted motion
    let mut w = active_world();
    w.obstacles.push(FlyingObstacle { x: 2500, y: 0 });
    move_flyingobstcle(&mut w, 2500);
    assert_eq!(w.obstacles.len(), 1);
    let mut w2 = active_world();
    w2.obstacles.push(FlyingObstacle { x: 2500, y: 0 });
    move_flyingobstcle(&mut w2, 2501);
    assert_eq!(w2.obstacles.len(), 0);
}

#[test]
fn collision_scores_and_destroys() {
    let mut w = active_world();
    w.obstacles.push(FlyingObstacle { x: 300, y: 100 });  // overlaps the player at the origin
    w.obstacles.push(FlyingObstacle { x: 1200, y: 0 });   // does not
    collide_flyingobstacle(&mut w);
    assert_eq!(w.scoreboard.score, 1);
    assert_eq!(w.obstacles.len(), 1);
    assert_eq!(w.obstacles[0].x, 1200);
}

#[test]
fn simultaneous_overlaps_each_score_once() {
    let mut w = active_world();
    w.obstacles.push(FlyingObstacle { x: 200, y: 0 });
    w.obstacles.push(FlyingObstacle { x: -200, y: 100 });
    w.obstacles.push(FlyingObstacle { x: 2500, y: 0 });
    collide_flyingobstacle(&mut w);
    assert_eq!(w.scoreboard.score, 2);
    assert_eq!(w.obstacles.len(), 1);
    // a destroyed obstacle cannot score again
    collide_flyingobstacle(&mut w);
    assert_eq!(w.scoreboard.score, 2);
    assert_eq!(w.obstacles.len(), 1);
}

#[test]
fn score_label_shows_the_score_in_decimal() {
    let mut w = active_world();
    w.scoreboard = ScoreBoard { score: 42 };
    text_score_update(&mut w);
    assert_eq!(w.score_text.as_ref().unwrap().as_str(), "42");
}

#[test]
fn cleanup_ingame_leaves_nothing_and_resets_the_score() {
    let mut w = active_world();
    w.obstacles.push(FlyingObstacle { x: 300, y: 0 });
    w.scoreboard = ScoreBoard { score: 9 };
    cleanup_ingame(&mut w);
    assert!(w.player.is_none());
    assert_eq!(w.walls.len(), 0);
    assert_eq!(w.obstacles.len(), 0);
    assert!(w.score_text.is_none());
    assert_eq!(w.scoreboard.score, 0);
}

#[test]
fn player_can_be_rebuilt_by_hand() {
    let p = Player { y: -100, movement: Movement { speed: 3, gravity: -1 } };
    let (y, v) = integrate_tick(p.y, p.movement.speed, p.movement.gravity, false);
    assert_eq!(v, 2);
    assert_eq!(y, -98);
}
