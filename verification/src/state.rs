use vstd::prelude::*;

verus! {

/// The application's mutually exclusive phases.
#[derive(Clone, Copy, Debug, PartialEq, Eq, Structural)]
pub enum AppState {
    Menu,
    InGame,
    GameOver,
}

/// The one phase that may follow `from`: the phases form a strict linear
/// cycle Menu -> InGame -> GameOver -> Menu.
pub open spec fn next_state(from: AppState) -> AppState {
    match from {
        AppState::Menu => AppState::InGame,
        AppState::InGame => AppState::GameOver,
        AppState::GameOver => AppState::Menu,
    }
}

/// The transitions the design defines. Requesting any other pair is a
/// programming error, not a runtime condition.
pub open spec fn valid_transition(from: AppState, to: AppState) -> bool {
    to == next_state(from)
}

/// Totality of the state machine: from every phase exactly one transition is
/// defined, and it is the next phase of the cycle. In particular Menu only
/// ever leads to InGame, InGame only to GameOver, and GameOver only to Menu.
pub proof fn lemma_state_totality(from: AppState)
    ensures
        forall|to: AppState| valid_transition(from, to) <==> to == next_state(from),
        from is Menu ==> next_state(from) is InGame,
        from is InGame ==> next_state(from) is GameOver,
        from is GameOver ==> next_state(from) is Menu,
{
}

/// The current phase plus an optional pending transition request. Requests
/// are recorded during a frame's updates and committed strictly between
/// frames; the last request before the commit wins.
pub struct StateMachine {
    pub current: AppState,
    pub pending: Option<AppState>,
}

impl StateMachine {
    /// A pending request, if present, is one of the defined transitions.
    pub open spec fn wf(self) -> bool {
        match self.pending {
            Some(to) => valid_transition(self.current, to),
            None => true,
        }
    }

    /// The machine starts in the Menu phase with nothing pending.
    pub fn new() -> (m: StateMachine)
        ensures
            m.current is Menu,
            m.pending is None,
            m.wf(),
    {
        StateMachine { current: AppState::Menu, pending: None }
    }

    /// Request a transition; a later request in the same frame would
    /// overwrite it. Undefined transitions are excluded up front.
    pub fn set_next(&mut self, to: AppState)
        requires
            valid_transition(old(self).current, to),
        ensures
            final(self).current == old(self).current,
            final(self).pending == Some(to),
            final(self).wf(),
    {
        self.pending = Some(to);
    }

    /// Commit a pending request at a frame boundary: the machine moves to the
    /// requested phase and the request slot empties. Returns the phase that
    /// was left, or None when nothing was pending.
    pub fn commit(&mut self) -> (left: Option<AppState>)
        requires
            old(self).wf(),
        ensures
            final(self).pending is None,
            final(self).wf(),
            match old(self).pending {
                Some(to) => {
                    &&& left == Some(old(self).current)
                    &&& final(self).current == to
                    &&& valid_transition(old(self).current, to)
                },
                None => {
                    &&& left is None
                    &&& final(self).current == old(self).current
                },
            },
    {
        match self.pending {
            Some(to) => {
                let from = self.current;
                self.current = to;
                self.pending = None;
                Some(from)
            }
            None => None,
        }
    }
}

} // verus!
