use vstd::prelude::*;
use crate::state::{AppState, StateMachine};

verus! {

/// Everything the GameOver phase owns: its one message text entity.
pub struct GameOverScreen {
    pub message: Option<String>,
}

impl GameOverScreen {
    /// How many entities tagged as GameOver-owned are live.
    pub open spec fn entity_count(self) -> int {
        if self.message is Some {
            1int
        } else {
            0int
        }
    }

    /// The shape the screen has while the GameOver phase is active.
    pub open spec fn active_wf(self) -> bool {
        self.message matches Some(s) && s@ == "GameOver\nreturn menu Press Space!"@
    }

    /// A screen with no live entities, as it stands outside the GameOver phase.
    pub fn new() -> (g: GameOverScreen)
        ensures
            g.entity_count() == 0,
            g.message is None,
    {
        GameOverScreen { message: None }
    }
}

/// The GameOver enter hook: create the result message text entity.
pub fn setup_gameover(screen: &mut GameOverScreen)
    ensures
        final(screen).active_wf(),
        final(screen).entity_count() == 1,
{
    screen.message = Some("GameOver\nreturn menu Press Space!".to_owned());
}

/// The GameOver update hook: a freshly pressed confirm key — and nothing
/// else — requests the transition back to Menu.
pub fn return_menu(machine: &mut StateMachine, pressed: bool)
    requires
        old(machine).wf(),
        old(machine).current is GameOver,
    ensures
        final(machine).wf(),
        final(machine).current == old(machine).current,
        pressed ==> final(machine).pending == Some(AppState::Menu),
        !pressed ==> *final(machine) == *old(machine),
{
    if pressed {
        machine.set_next(AppState::Menu);
    }
}

/// The GameOver exit hook: destroy every GameOver-owned entity.
pub fn cleanup_gameover(screen: &mut GameOverScreen)
    ensures
        final(screen).entity_count() == 0,
        final(screen).message is None,
{
    screen.message = None;
}

/// The GameOver phase's hooks, gathered as one interface: enter, per-frame
/// update, exit.
pub struct GameOverPlugin;

impl GameOverPlugin {
    /// Runs when the GameOver phase is entered.
    pub fn on_enter(screen: &mut GameOverScreen)
        ensures
            final(screen).active_wf(),
            final(screen).entity_count() == 1,
    {
        setup_gameover(screen);
    }

    /// Runs every frame while the GameOver phase is current.
    pub fn on_update(machine: &mut StateMachine, pressed: bool)
        requires
            old(machine).wf(),
            old(machine).current is GameOver,
        ensures
            final(machine).wf(),
            final(machine).current == old(machine).current,
            pressed ==> final(machine).pending == Some(AppState::Menu),
            !pressed ==> *final(machine) == *old(machine),
    {
        return_menu(machine, pressed);
    }

    /// Runs when the GameOver phase is left.
    pub fn on_exit(screen: &mut GameOverScreen)
        ensures
            final(screen).entity_count() == 0,
            final(screen).message is None,
    {
        cleanup_gameover(screen);
    }
}

} // verus!
