//! The session controller: a state machine driving one game to its outcome.

use crate::engine::adds_char;
use crate::engine::commits_input;
use crate::engine::removes_char;
use crate::engine::GameState;
use vstd::prelude::*;

verus! {

/// Where a session stands. `Won`, `Lost` and `Aborted` are terminal.
#[derive(Debug, PartialEq, Eq, Structural, Clone, Copy)]
pub enum SessionStatus {
    Playing,
    Won,
    Lost,
    Aborted,
}

/// One discrete input event fed to the controller.
#[derive(Debug, PartialEq, Eq, Clone, Copy)]
pub enum InputEvent {
    Letter(char),
    Backspace,
    Confirm,
    Abort,
}

/// One play-through: the engine plus the controller's status.
pub struct Session {
    pub engine: GameState,
    pub status: SessionStatus,
}

impl Session {
    /// Well-formedness: the engine is well-formed, and while play goes on the
    /// history sits strictly below the attempt bound.
    pub open spec fn wf(&self) -> bool {
        &&& self.engine.wf()
        &&& self.status == SessionStatus::Playing ==> self.engine.history().len()
            < self.engine.max_tries as nat
    }

    /// Starts a session over an engine that still has attempts left.
    pub fn new(engine: GameState) -> (s: Session)
        requires
            engine.wf(),
            engine.guesses@.len() < engine.max_tries as nat,
        ensures
            s.engine == engine,
            s.status == SessionStatus::Playing,
            s.wf(),
    {
        Session { engine, status: SessionStatus::Playing }
    }

    /// Processes one input event. Terminal sessions absorb every event. While
    /// play goes on, an abort ends the session at once; letters and
    /// backspaces edit the input buffer and never consume an attempt; a
    /// confirm commits the buffer, and the session is won when the committed
    /// guess equals the solution, lost when a commit that did not win filled
    /// the last attempt, and otherwise continues -- a rejected commit costs
    /// nothing.
    pub fn handle_event(&mut self, event: InputEvent)
        requires
            old(self).wf(),
        ensures
            final(self).wf(),
            old(self).status != SessionStatus::Playing ==> *final(self) == *old(self),
            old(self).status == SessionStatus::Playing ==> match event {
                InputEvent::Abort => {
                    &&& final(self).engine == old(self).engine
                    &&& final(self).status == SessionStatus::Aborted
                },
                InputEvent::Letter(c) => {
                    &&& adds_char(old(self).engine, final(self).engine, c)
                    &&& final(self).status == SessionStatus::Playing
                },
                InputEvent::Backspace => {
                    &&& removes_char(old(self).engine, final(self).engine)
                    &&& final(self).status == SessionStatus::Playing
                },
                InputEvent::Confirm => {
                    &&& commits_input(old(self).engine, final(self).engine)
                    &&& final(self).status == (if final(self).engine.spec_won() {
                        SessionStatus::Won
                    } else if final(self).engine.history().len()
                        >= final(self).engine.max_tries as nat {
                        SessionStatus::Lost
                    } else {
                        SessionStatus::Playing
                    })
                },
            },
    {
        match self.status {
            SessionStatus::Playing => {
                match event {
                    InputEvent::Abort => {
                        self.status = SessionStatus::Aborted;
                    },
                    InputEvent::Letter(c) => {
                        self.engine.add_char(c);
                    },
                    InputEvent::Backspace => {
                        self.engine.back();
                    },
                    InputEvent::Confirm => {
                        self.engine.confirm();
                        if self.engine.won() {
                            self.status = SessionStatus::Won;
                        } else if self.engine.guesses.len() >= self.engine.max_tries as usize {
                            self.status = SessionStatus::Lost;
                        }
                    },
                }
            },
            _ => {},
        }
    }
}

} // verus!
