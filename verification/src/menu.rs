use vstd::prelude::*;
use crate::state::{AppState, StateMachine};

verus! {

/// Everything the Menu phase owns: its one prompt text entity.
pub struct MenuScreen {
    pub prompt: Option<String>,
}

impl MenuScreen {
    /// How many entities tagged as menu-owned are live.
    pub open spec fn entity_count(self) -> int {
        if self.prompt is Some {
            1int
        } else {
            0int
        }
    }

    /// The shape the screen has while the Menu phase is active.
    pub open spec fn active_wf(self) -> bool {
        self.prompt matches Some(s) && s@ == "Press Space!"@
    }

    /// A screen with no live entities, as it stands outside the Menu phase.
    pub fn new() -> (m: MenuScreen)
        ensures
            m.entity_count() == 0,
            m.prompt is None,
    {
        MenuScreen { prompt: None }
    }
}

/// The Menu enter hook: create the prompt text entity.
pub fn setup_menu(screen: &mut MenuScreen)
    ensures
        final(screen).active_wf(),
        final(screen).entity_count() == 1,
{
    screen.prompt = Some("Press Space!".to_owned());
}

/// The Menu update hook: a freshly pressed confirm key — and nothing else —
/// requests the transition to InGame.
pub fn to_in_game(machine: &mut StateMachine, pressed: bool)
    requires
        old(machine).wf(),
        old(machine).current is Menu,
    ensures
        final(machine).wf(),
        final(machine).current == old(machine).current,
        pressed ==> final(machine).pending == Some(AppState::InGame),
        !pressed ==> *final(machine) == *old(machine),
{
    if pressed {
        machine.set_next(AppState::InGame);
    }
}

/// The Menu exit hook: destroy every menu-owned entity.
pub fn cleanup_menu(screen: &mut MenuScreen)
    ensures
        final(screen).entity_count() == 0,
        final(screen).prompt is None,
{
    screen.prompt = None;
}

/// The Menu phase's hooks, gathered as one interface: enter, per-frame
/// update, exit.
pub struct MenuPlugin;

impl MenuPlugin {
    /// Runs when the Menu phase is entered.
    pub fn on_enter(screen: &mut MenuScreen)
        ensures
            final(screen).active_wf(),
            final(screen).entity_count() == 1,
    {
        setup_menu(screen);
    }

    /// Runs every frame while the Menu phase is current.
    pub fn on_update(machine: &mut StateMachine, pressed: bool)
        requires
            old(machine).wf(),
            old(machine).current is Menu,
        ensures
            final(machine).wf(),
            final(machine).current == old(machine).current,
            pressed ==> final(machine).pending == Some(AppState::InGame),
            !pressed ==> *final(machine) == *old(machine),
    {
        to_in_game(machine, pressed);
    }

    /// Runs when the Menu phase is left.
    pub fn on_exit(screen: &mut MenuScreen)
        ensures
            final(screen).entity_count() == 0,
            final(screen).prompt is None,
    {
        cleanup_menu(screen);
    }
}

} // verus!
