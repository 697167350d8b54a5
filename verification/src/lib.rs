pub mod collide;
pub mod game;
pub mod gameover;
pub mod menu;
pub mod physics;
pub mod state;
pub mod text;

use vstd::prelude::*;

use crate::game::{spec_moved, spec_survivors, FlyingObstacle, GamePlugin, GameWorld};
use crate::gameover::{GameOverPlugin, GameOverScreen};
use crate::menu::{MenuPlugin, MenuScreen};
use crate::physics::{
    spec_step_position, spec_step_velocity, spec_wall_touch, FIELD_BOUND, SPAWN_PERIOD_MS, SPAWN_X,
};
use crate::state::{valid_transition, AppState, StateMachine};
use crate::text::spec_decimal;

verus! {

/// The whole application: the state machine and the entities each phase
/// owns. Exactly one phase is current at any time; a requested transition
/// is committed strictly between frames, never mid-update.
pub struct GameApp {
    pub machine: StateMachine,
    pub menu: MenuScreen,
    pub game: GameWorld,
    pub over: GameOverScreen,
}

/// How many entities tagged as belonging to a phase are live.
pub open spec fn phase_entities(app: GameApp, phase: AppState) -> int {
    match phase {
        AppState::Menu => app.menu.entity_count(),
        AppState::InGame => app.game.entity_count(),
        AppState::GameOver => app.over.entity_count(),
    }
}

impl GameApp {
    /// The cross-phase invariant: the machine is sound, the current phase's
    /// entities are set up, the other phases own no entities at all, and the
    /// score is zero whenever no session is running.
    pub open spec fn wf(self) -> bool {
        &&& self.machine.wf()
        &&& (self.machine.current is Menu ==> self.menu.active_wf() && self.game.entity_count()
            == 0 && self.over.entity_count() == 0 && self.game.scoreboard.score == 0)
        &&& (self.machine.current is InGame ==> self.game.active_wf() && self.menu.entity_count()
            == 0 && self.over.entity_count() == 0)
        &&& (self.machine.current is GameOver ==> self.over.active_wf()
            && self.menu.entity_count() == 0 && self.game.entity_count() == 0
            && self.game.scoreboard.score == 0)
    }

    /// A freshly started application: in the Menu phase, with the menu's
    /// enter hook already run and nothing else live.
    pub fn new() -> (app: GameApp)
        ensures
            app.wf(),
            app.machine.current is Menu,
            app.machine.pending is None,
            app.menu.active_wf(),
            phase_entities(app, AppState::InGame) == 0,
            phase_entities(app, AppState::GameOver) == 0,
            app.game.scoreboard.score == 0,
    {
        let machine = StateMachine::new();
        let mut menu = MenuScreen::new();
        MenuPlugin::on_enter(&mut menu);
        GameApp { machine, menu, game: GameWorld::new(), over: GameOverScreen::new() }
    }

    /// The current phase.
    pub fn current_state(&self) -> (s: AppState)
        ensures
            s == self.machine.current,
    {
        self.machine.current
    }

    /// The transition requested this frame, if any.
    pub fn pending_state(&self) -> (s: Option<AppState>)
        ensures
            s == self.machine.pending,
    {
        self.machine.pending
    }

    /// The session score.
    pub fn score(&self) -> (s: usize)
        ensures
            s == self.game.scoreboard.score,
    {
        self.game.scoreboard.score
    }

    /// The player's vertical position and velocity, while one is live.
    pub fn player_state(&self) -> (r: Option<(i64, i64)>)
        ensures
            match self.game.player {
                Some(p) => r == Some((p.y, p.movement.speed)),
                None => r is None,
            },
    {
        match self.game.player {
            Some(p) => Some((p.y, p.movement.speed)),
            None => None,
        }
    }

    /// How many flying obstacles are live.
    pub fn obstacle_count(&self) -> (n: usize)
        ensures
            n == self.game.obstacles@.len(),
    {
        self.game.obstacles.len()
    }

    /// The position of one live flying obstacle.
    pub fn obstacle_at(&self, i: usize) -> (r: (i64, i64))
        requires
            i < self.game.obstacles@.len(),
        ensures
            r.0 == self.game.obstacles@[i as int].x,
            r.1 == self.game.obstacles@[i as int].y,
    {
        let o = self.game.obstacles[i];
        (o.x, o.y)
    }

    /// The score label's text, while one is live.
    pub fn score_label(&self) -> (t: Option<&String>)
        ensures
            match self.game.score_text {
                Some(s) => t matches Some(u) && u@ == s@,
                None => t is None,
            },
    {
        self.game.score_text.as_ref()
    }

    /// How many entities a phase owns right now.
    pub fn live_entities(&self, phase: AppState) -> (n: usize)
        requires
            phase_entities(*self, phase) <= usize::MAX,
        ensures
            n as int == phase_entities(*self, phase),
    {
        match phase {
            AppState::Menu => {
                if self.menu.prompt.is_some() {
                    1
                } else {
                    0
                }
            },
            AppState::InGame => {
                let mut n: usize = if self.game.player.is_some() {
                    1
                } else {
                    0
                };
                n = n + self.game.walls.len();
                n = n + self.game.obstacles.len();
                if self.game.score_text.is_some() {
                    n = n + 1;
                }
                n
            },
            AppState::GameOver => {
                if self.over.message.is_some() {
                    1
                } else {
                    0
                }
            },
        }
    }

    /// The menu prompt's text, while one is live.
    pub fn menu_prompt(&self) -> (t: Option<&String>)
        ensures
            match self.menu.prompt {
                Some(s) => t matches Some(u) && u@ == s@,
                None => t is None,
            },
    {
        self.menu.prompt.as_ref()
    }

    /// The game-over message's text, while one is live.
    pub fn gameover_message(&self) -> (t: Option<&String>)
        ensures
            match self.over.message {
                Some(s) => t matches Some(u) && u@ == s@,
                None => t is None,
            },
    {
        self.over.message.as_ref()
    }
}

/// One frame. A transition requested in an earlier frame is committed first:
/// the old phase's exit hook runs (destroying every entity that phase owns),
/// the machine switches, and the new phase's enter hook runs; the new phase's
/// update hooks first run on a later frame. With no pending transition the
/// current phase's update hooks run with this frame's input edge and elapsed
/// time.
pub fn step_frame(app: &mut GameApp, pressed: bool, dt_ms: u64)
    requires
        old(app).wf(),
        dt_ms <= u64::MAX - SPAWN_PERIOD_MS,
        2 * dt_ms <= i64::MAX - SPAWN_X,
        (old(app).machine.current is InGame && old(app).machine.pending is None) ==> {
            &&& old(app).game.player->0.movement.speed
                + old(app).game.player->0.movement.gravity >= i64::MIN + 2 * FIELD_BOUND
            &&& old(app).game.scoreboard.score + old(app).game.obstacles@.len() + 1 <= usize::MAX
        },
    ensures
        final(app).wf(),
        match old(app).machine.pending {
            Some(to) => {
                // commit: exit, switch, enter — and the old phase leaks nothing
                &&& valid_transition(old(app).machine.current, to)
                &&& final(app).machine.current == to
                &&& final(app).machine.pending is None
                &&& phase_entities(*final(app), old(app).machine.current) == 0
                &&& (to is InGame ==> {
                    &&& final(app).game.scoreboard.score == 0
                    &&& final(app).game.player matches Some(p) && p.y == 0 && p.movement.speed
                        == 0
                    &&& final(app).game.obstacles@.len() == 0
                    &&& final(app).game.timer.elapsed_ms == 0
                })
                &&& (to is Menu ==> final(app).menu.active_wf())
                &&& (to is GameOver ==> final(app).over.active_wf())
            },
            None => {
                &&& final(app).machine.current == old(app).machine.current
                &&& (old(app).machine.current is Menu ==> {
                    &&& final(app).menu == old(app).menu
                    &&& final(app).game == old(app).game
                    &&& final(app).over == old(app).over
                    &&& (pressed ==> final(app).machine.pending == Some(AppState::InGame))
                    &&& (!pressed ==> final(app).machine.pending is None)
                })
                &&& (old(app).machine.current is GameOver ==> {
                    &&& final(app).menu == old(app).menu
                    &&& final(app).game == old(app).game
                    &&& final(app).over == old(app).over
                    &&& (pressed ==> final(app).machine.pending == Some(AppState::Menu))
                    &&& (!pressed ==> final(app).machine.pending is None)
                })
                &&& (old(app).machine.current is InGame ==> {
                    let p = old(app).game.player->0;
                    let q = final(app).game.player->0;
                    let dt = dt_ms as int;
                    let fired = old(app).game.timer.elapsed_ms + dt_ms >= SPAWN_PERIOD_MS;
                    let survivors = spec_survivors(old(app).game.obstacles@, q, dt);
                    &&& final(app).menu == old(app).menu
                    &&& final(app).over == old(app).over
                    &&& final(app).game.walls == old(app).game.walls
                    &&& final(app).game.player is Some
                    &&& q.movement.gravity == p.movement.gravity
                    &&& q.movement.speed as int == spec_step_velocity(
                        p.movement.speed as int,
                        p.movement.gravity as int,
                        pressed,
                    )
                    &&& q.y as int == spec_step_position(
                        p.y as int,
                        p.movement.speed as int,
                        p.movement.gravity as int,
                        pressed,
                    )
                    &&& (spec_wall_touch(q.y as int) <==> final(app).machine.pending == Some(
                        AppState::GameOver,
                    ))
                    &&& (!spec_wall_touch(q.y as int) ==> final(app).machine.pending is None)
                    &&& final(app).game.scoreboard.score == old(app).game.scoreboard.score
                        + spec_moved(old(app).game.obstacles@, dt).len() - survivors.len()
                    &&& final(app).game.scoreboard.score >= old(app).game.scoreboard.score
                    &&& (if fired {
                        exists|ry: i64|
                            #![auto]
                            {
                                &&& -FIELD_BOUND <= ry < FIELD_BOUND
                                &&& final(app).game.obstacles@ == survivors.push(
                                    (FlyingObstacle { x: SPAWN_X, y: ry }),
                                )
                            }
                    } else {
                        final(app).game.obstacles@ == survivors
                    })
                    &&& final(app).game.score_text matches Some(s) && s@ == spec_decimal(
                        final(app).game.scoreboard.score as int,
                    )
                })
            },
        },
{
    let committed = app.machine.commit();
    match committed {
        Some(from) => {
            match from {
                AppState::Menu => MenuPlugin::on_exit(&mut app.menu),
                AppState::InGame => GamePlugin::on_exit(&mut app.game),
                AppState::GameOver => GameOverPlugin::on_exit(&mut app.over),
            }
            let entered = app.machine.current;
            match entered {
                AppState::Menu => MenuPlugin::on_enter(&mut app.menu),
                AppState::InGame => GamePlugin::on_enter(&mut app.game),
                AppState::GameOver => GameOverPlugin::on_enter(&mut app.over),
            }
        },
        None => {
            let current = app.machine.current;
            match current {
                AppState::Menu => MenuPlugin::on_update(&mut app.machine, pressed),
                AppState::InGame => GamePlugin::on_update(
                    &mut app.game,
                    &mut app.machine,
                    pressed,
                    dt_ms,
                ),
                AppState::GameOver => GameOverPlugin::on_update(&mut app.machine, pressed),
            }
        },
    }
}

} // verus!
