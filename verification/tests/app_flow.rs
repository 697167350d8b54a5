use flappy::game::{FlyingObstacle, GameWorld, Movement, Player, setup_game};
use flappy::gameover::GameOverScreen;
use flappy::menu::MenuScreen;
use flappy::state::{AppState, StateMachine};
use flappy::{step_frame, GameApp};

const FRAME_MS: u64 = 16;

fn app_in_game() -> GameApp {
    let mut game = GameWorld::new();
    setup_game(&mut game);
    GameApp {
        machine: StateMachine { current: AppState::InGame, pending: None },
        menu: MenuScreen { prompt: None },
        game,
        over: GameOverScreen { message: None },
    }
}

#[test]
fn menu_confirm_leads_to_in_game_only() {
    let mut app = GameApp::new();
    assert_eq!(app.current_state(), AppState::Menu);
    // holding nothing pressed loops in Menu forever
    step_frame(&mut app, false, FRAME_MS);
    assert_eq!(app.current_state(), AppState::Menu);
    assert_eq!(app.pending_state(), None);
    // the confirm edge requests InGame; the commit lands on the next frame
    step_frame(&mut app, true, FRAME_MS);
    assert_eq!(app.current_state(), AppState::Menu);
    assert_eq!(app.pending_state(), Some(AppState::InGame));
    step_frame(&mut app, false, FRAME_MS);
    assert_eq!(app.current_state(), AppState::InGame);
}

#[test]
fn state_machine_cycle_is_total() {
    // Menu -> InGame -> GameOver -> Menu, and nothing else
    let mut m = StateMachine::new();
    assert_eq!(m.current, AppState::Menu);
    m.set_next(AppState::InGame);
    assert_eq!(m.commit(), Some(AppState::Menu));
    assert_eq!(m.current, AppState::InGame);
    m.set_next(AppState::GameOver);
    assert_eq!(m.commit(), Some(AppState::InGame));
    assert_eq!(m.current, AppState::GameOver);
    m.set_next(AppState::Menu);
    assert_eq!(m.commit(), Some(AppState::GameOver));
    assert_eq!(m.current, AppState::Menu);
    // with nothing pending a commit changes nothing
    assert_eq!(m.commit(), None);
    assert_eq!(m.current, AppState::Menu);
}

#[test]
fn last_transition_request_wins() {
    let mut m = StateMachine::new();
    m.set_next(AppState::InGame);
    m.set_next(AppState::InGame);
    assert_eq!(m.pending, Some(AppState::InGame));
    assert_eq!(m.commit(), Some(AppState::Menu));
    assert_eq!(m.pending, None);
}

#[test]
fn wall_contact_ends_the_session() {
    let mut app = app_in_game();
    app.game.player = Some(Player { y: -1995, movement: Movement { speed: -10, gravity: -1 } });
    step_frame(&mut app, false, FRAME_MS);
    // the player fell past the lower bound: clamped to it, and that is wall contact
    assert_eq!(app.player_state(), Some((-2000, -11)));
    assert_eq!(app.pending_state(), Some(AppState::GameOver));
    // the next frame commits: InGame leaves nothing behind
    step_frame(&mut app, false, FRAME_MS);
    assert_eq!(app.current_state(), AppState::GameOver);
    assert_eq!(app.live_entities(AppState::InGame), 0);
    assert_eq!(app.score(), 0);
    assert_eq!(
        app.gameover_message().unwrap().as_str(),
        "GameOver\nreturn menu Press Space!"
    );
    // confirm returns to the menu, and the message is gone
    step_frame(&mut app, true, FRAME_MS);
    step_frame(&mut app, false, FRAME_MS);
    assert_eq!(app.current_state(), AppState::Menu);
    assert_eq!(app.live_entities(AppState::GameOver), 0);
    assert_eq!(app.menu_prompt().unwrap().as_str(), "Press Space!");
}

#[test]
fn cleanup_on_every_exit_leaves_zero_entities() {
    let mut app = GameApp::new();
    assert_eq!(app.live_entities(AppState::Menu), 1);
    step_frame(&mut app, true, FRAME_MS);
    step_frame(&mut app, false, FRAME_MS);
    assert_eq!(app.current_state(), AppState::InGame);
    assert_eq!(app.live_entities(AppState::Menu), 0);
    assert!(app.live_entities(AppState::InGame) > 0);
}

#[test]
fn score_never_decreases_and_resets_on_entry() {
    let mut app = app_in_game();
    app.game.obstacles.push(FlyingObstacle { x: 300, y: 0 });
    let mut last = app.score();
    for _ in 0..5 {
        step_frame(&mut app, true, FRAME_MS);
        if app.current_state() != AppState::InGame {
            break;
        }
        assert!(app.score() >= last);
        last = app.score();
    }
    assert_eq!(app.score(), 1);
    assert_eq!(app.score_label().unwrap().as_str(), "1");
    // drive the session to its end: no input, the player falls to the wall
    while app.current_state() == AppState::InGame {
        step_frame(&mut app, false, FRAME_MS);
    }
    assert_eq!(app.current_state(), AppState::GameOver);
    // back around the cycle into a fresh session: the score is exactly zero
    step_frame(&mut app, true, FRAME_MS);
    step_frame(&mut app, false, FRAME_MS);
    assert_eq!(app.current_state(), AppState::Menu);
    step_frame(&mut app, true, FRAME_MS);
    step_frame(&mut app, false, FRAME_MS);
    assert_eq!(app.current_state(), AppState::InGame);
    assert_eq!(app.score(), 0);
    assert_eq!(app.player_state(), Some((0, 0)));
}

#[test]
fn in_game_frame_integrates_gravity_and_flap() {
    let mut app = app_in_game();
    step_frame(&mut app, false, FRAME_MS);
    assert_eq!(app.player_state(), Some((-1, -1)));
    step_frame(&mut app, false, FRAME_MS);
    assert_eq!(app.player_state(), Some((-3, -2)));
    step_frame(&mut app, true, FRAME_MS);
    assert_eq!(app.player_state(), Some((27, 30)));
}

#[test]
fn end_to_end_scenario() {
    // start in Menu
    let mut app = GameApp::new();
    assert_eq!(app.current_state(), AppState::Menu);
    assert_eq!(app.menu_prompt().unwrap().as_str(), "Press Space!");
    // confirm press: InGame entered, player at the origin with zero
    // velocity, score zero
    step_frame(&mut app, true, FRAME_MS);
    step_frame(&mut app, false, FRAME_MS);
    assert_eq!(app.current_state(), AppState::InGame);
    assert_eq!(app.player_state(), Some((0, 0)));
    assert_eq!(app.score(), 0);
    assert_eq!(app.obstacle_count(), 0);
    // 2.0 seconds elapse with no further input: one obstacle spawned at the
    // right field edge (x = 250 units), at a height inside the field
    step_frame(&mut app, true, 2000);
    assert_eq!(app.obstacle_count(), 1);
    let (x, y) = app.obstacle_at(0);
    assert_eq!(x, 2500);
    assert!(-2000 <= y && y < 2000);
    // flap to keep the player away from the walls while time passes; after
    // more than 2.5 seconds of motion the obstacle is gone — unless it hit
    // the player on its way, which scores instead
    step_frame(&mut app, true, 1250);
    assert_eq!(app.current_state(), AppState::InGame);
    let could_collide = app.obstacle_count() == 0;
    if could_collide {
        assert_eq!(app.score(), 1);
    }
    step_frame(&mut app, true, 1251);
    assert_eq!(app.current_state(), AppState::InGame);
    // the first obstacle moved for 2501 milliseconds in all: off the field
    // and destroyed (or already collided); the second period's newcomer is
    // the only survivor
    assert_eq!(app.obstacle_count(), 1);
    assert_eq!(app.obstacle_at(0).0, 2500);
    assert!(app.score() == 0 || app.score() == 1);
}
