//! The engine as plain values, and what each operation makes of it.
//!
//! The state is a record of the clock, the roster, the turn pointer and the
//! viewport. Every operation is a function from one state to the next;
//! the executable engine is held to these functions, and the laws of the
//! engine are stated over them.

use vstd::prelude::*;
use crate::clock::ClockModel;
use crate::config::Config;
use crate::player::PlayerModel;
use crate::pose::{Position, Viewport};

verus! {

/// What the engine is, as plain values.
pub struct EngineModel {
    pub clock: ClockModel,
    /// The roster, in seating order.
    pub players: Seq<PlayerModel>,
    /// The seat whose turn it is; 0, and nobody's, on an empty roster.
    pub active: nat,
    /// The session time at which the turn began.
    pub turn_start: nat,
    /// The bounds the markers are held in.
    pub viewport: Viewport,
}

/// The bounds that hold until the first real ones arrive.
pub open spec fn initial_viewport() -> Viewport {
    Viewport { x: 0, y: 0, width: 10000, height: 10000 }
}

impl EngineModel {
    /// An engine that has seen nothing: a paused clock at zero and an empty roster.
    pub open spec fn initial() -> EngineModel {
        EngineModel {
            clock: ClockModel::initial(),
            players: Seq::empty(),
            active: 0,
            turn_start: 0,
            viewport: initial_viewport(),
        }
    }

    /// The state is consistent: the clock is, the turn began no later than
    /// now, the active seat is taken unless nobody plays, every player sits
    /// at the seat their record names, and every marker is where the clamp to
    /// the viewport leaves it.
    pub open spec fn wf(self) -> bool {
        &&& self.clock.wf()
        &&& self.viewport.fits()
        &&& self.turn_start <= self.clock.global()
        &&& if self.players.len() == 0 {
            self.active == 0
        } else {
            self.active < self.players.len()
        }
        &&& forall|i: int|
            0 <= i < self.players.len() ==> {
                &&& (#[trigger] self.players[i]).id == i
                &&& self.viewport.holds(self.players[i].pose)
            }
    }

    /// How long the present turn has lasted.
    pub open spec fn turn_elapsed(self) -> nat {
        (self.clock.global() - self.turn_start) as nat
    }

    /// The seat after the active one, going round the table.
    pub open spec fn next_seat(self) -> nat {
        (self.active + 1) % self.players.len()
    }

    /// The seat before the active one, going round the table.
    pub open spec fn previous_seat(self) -> nat {
        if self.active == 0 {
            (self.players.len() - 1) as nat
        } else {
            (self.active - 1) as nat
        }
    }

    /// The turn time that seat `seat` shows: the running turn time for the
    /// active seat, and for every other seat what it showed when its turn
    /// last passed on.
    pub open spec fn shown_elapsed(self, seat: nat) -> nat {
        if seat == self.active {
            self.turn_elapsed()
        } else {
            self.players[seat as int].shown
        }
    }

    /// The state after the ticker reported `now`.
    pub open spec fn tick(self, now: nat) -> EngineModel {
        EngineModel { clock: self.clock.tick(now), ..self }
    }

    /// The state after the operator paused or resumed the session. Without
    /// players there is no session to run, and nothing changes.
    pub open spec fn toggle_pause(self) -> EngineModel {
        if self.players.len() == 0 {
            self
        } else {
            EngineModel { clock: self.clock.toggle(), ..self }
        }
    }

    /// The state after the active player's turn was confirmed as done: the
    /// turn's length is recorded for that player, the turn passes to the
    /// next seat, and the new turn begins now. Without players nothing
    /// changes.
    pub open spec fn advance(self) -> EngineModel {
        if self.players.len() == 0 {
            self
        } else {
            EngineModel {
                players: self.players.update(
                    self.active as int,
                    self.players[self.active as int].recorded(self.turn_elapsed()),
                ),
                active: self.next_seat(),
                turn_start: self.clock.global(),
                ..self
            }
        }
    }

    /// The state after the latest advance was taken back: the turn returns
    /// to the seat before, that seat's latest round is erased if it has
    /// one, and the turn begins anew now. Without players nothing changes.
    pub open spec fn undo(self) -> EngineModel {
        if self.players.len() == 0 {
            self
        } else {
            let parked = self.players.update(
                self.active as int,
                self.players[self.active as int].frozen(self.turn_elapsed()),
            );
            EngineModel {
                players: parked.update(
                    self.previous_seat() as int,
                    parked[self.previous_seat() as int].erased(),
                ),
                active: self.previous_seat(),
                turn_start: self.clock.global(),
                ..self
            }
        }
    }

    /// The record of a player who has just sat down at seat `id`, with the
    /// marker held inside the viewport.
    pub open spec fn seated(self, id: nat, name: Seq<char>) -> PlayerModel {
        let fresh = PlayerModel::fresh(id, name);
        fresh.moved(self.viewport.clamped(fresh.pose))
    }

    /// The state after the roster was rebuilt for players called `names`:
    /// every record is fresh, the first seat is active, and its turn begins
    /// now. The clock and the viewport stay as they are.
    pub open spec fn rebuilt(self, names: Seq<Seq<char>>) -> EngineModel {
        EngineModel {
            players: Seq::new(names.len(), |i: int| self.seated(i as nat, names[i])),
            active: 0,
            turn_start: self.clock.global(),
            ..self
        }
    }

    /// The names of the players at the table, in seating order.
    pub open spec fn names(self) -> Seq<Seq<char>> {
        Seq::new(self.players.len(), |i: int| self.players[i].name)
    }

    /// The state after a reset by hand: the roster is rebuilt for the
    /// players who sit at the table now.
    pub open spec fn reset(self) -> EngineModel {
        self.rebuilt(self.names())
    }

    /// The state after `config` was handed over: the roster is rebuilt for
    /// its names if it is valid, and nothing changes if it is not.
    pub open spec fn configure(self, config: Config) -> EngineModel {
        if config.valid() {
            self.rebuilt(config.names_text())
        } else {
            self
        }
    }

    /// The state after the button of seat `seat` was pressed: an advance if
    /// it is that seat's turn, and nothing otherwise.
    pub open spec fn press(self, seat: nat) -> EngineModel {
        if seat == self.active {
            self.advance()
        } else {
            self
        }
    }

    /// The state after a rotate action on the marker of seat `seat`: one
    /// step is added to its rotation. A seat that nobody sits at changes
    /// nothing, and neither does an action whose sum would not fit.
    pub open spec fn rotate(self, seat: nat) -> EngineModel {
        if seat < self.players.len() {
            EngineModel {
                players: self.players.update(seat as int, self.players[seat as int].turned()),
                ..self
            }
        } else {
            self
        }
    }

    /// The state after the marker of seat `seat` was dragged towards `raw`:
    /// it now stands where the clamp to the viewport puts `raw`. A seat that
    /// nobody sits at changes nothing.
    pub open spec fn propose_move(self, seat: nat, raw: Position) -> EngineModel {
        if seat < self.players.len() {
            EngineModel {
                players: self.players.update(
                    seat as int,
                    self.players[seat as int].moved(self.viewport.clamped(raw)),
                ),
                ..self
            }
        } else {
            self
        }
    }

    /// The state after the viewport changed to `viewport`: every marker is
    /// clamped to the new bounds. Bounds whose inset edges no `i32` can hold
    /// are refused and change nothing.
    pub open spec fn set_viewport(self, viewport: Viewport) -> EngineModel {
        if viewport.fits() {
            EngineModel {
                players: Seq::new(
                    self.players.len(),
                    |i: int| self.players[i].moved(viewport.clamped(self.players[i].pose)),
                ),
                viewport,
                ..self
            }
        } else {
            self
        }
    }
}

/// One thing that can happen to the engine.
pub enum Operation {
    /// The ticker reports a reading.
    Tick(nat),
    /// The operator pauses or resumes the session.
    TogglePause,
    /// The operator confirms the active player's turn as done.
    Advance,
    /// The operator takes the latest advance back.
    Undo,
    /// The operator resets the game.
    Reset,
    /// A configuration is handed over.
    Configure(Config),
    /// The button of a seat is pressed.
    Press(nat),
    /// The marker of a seat is turned by one step.
    Rotate(nat),
    /// The marker of a seat is dragged towards a position.
    ProposeMove(nat, Position),
    /// The viewport changes.
    SetViewport(Viewport),
}

impl EngineModel {
    /// The state after one operation.
    pub open spec fn apply(self, operation: Operation) -> EngineModel {
        match operation {
            Operation::Tick(now) => self.tick(now),
            Operation::TogglePause => self.toggle_pause(),
            Operation::Advance => self.advance(),
            Operation::Undo => self.undo(),
            Operation::Reset => self.reset(),
            Operation::Configure(config) => self.configure(config),
            Operation::Press(seat) => self.press(seat),
            Operation::Rotate(seat) => self.rotate(seat),
            Operation::ProposeMove(seat, raw) => self.propose_move(seat, raw),
            Operation::SetViewport(viewport) => self.set_viewport(viewport),
        }
    }

    /// The operation begins a turn: it is a reset, a valid configuration,
    /// or, at a table with players, an advance, an undo or a press of the
    /// active seat's button.
    pub open spec fn begins_a_turn(self, operation: Operation) -> bool {
        match operation {
            Operation::Advance | Operation::Undo => self.players.len() > 0,
            Operation::Press(seat) => seat == self.active && self.players.len() > 0,
            Operation::Reset => true,
            Operation::Configure(config) => config.valid(),
            _ => false,
        }
    }

    /// The state after a sequence of operations, first to last.
    pub open spec fn run(self, operations: Seq<Operation>) -> EngineModel
        decreases operations.len(),
    {
        if operations.len() == 0 {
            self
        } else {
            self.run(operations.drop_last()).apply(operations.last())
        }
    }
}

} // verus!
