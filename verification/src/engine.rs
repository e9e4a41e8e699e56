//! The turn engine: whose turn it is, when it began, and what each player
//! has recorded.
//!
//! The engine owns the session clock and the roster. Every operation is one
//! step from a consistent state to the next; nothing is left half applied.

use vstd::prelude::*;
use crate::clock::SessionClock;
use crate::config::{Config, ConfigError};
use crate::engine_model::EngineModel;
use crate::player::{records_of, Player, PlayerModel};
use crate::pose::{Position, Viewport};

verus! {

/// The timer's engine: session clock, roster and turn pointer.
pub struct Engine {
    clock: SessionClock,
    players: Vec<Player>,
    active: usize,
    turn_start: u64,
    viewport: Viewport,
}

impl View for Engine {
    type V = EngineModel;

    closed spec fn view(&self) -> EngineModel {
        EngineModel {
            clock: self.clock@,
            players: records_of(self.players@),
            active: self.active as nat,
            turn_start: self.turn_start as nat,
            viewport: self.viewport,
        }
    }
}

impl Engine {
    /// The engine's state is consistent. A new engine is, and every
    /// operation keeps it so.
    pub open spec fn wf(&self) -> bool {
        self@.wf()
    }

    /// An engine with a paused clock at zero and nobody at the table.
    pub fn new() -> (engine: Engine)
        ensures
            engine.wf(),
            engine@ == EngineModel::initial(),
    {
        let engine = Engine {
            clock: SessionClock::new(),
            players: Vec::new(),
            active: 0,
            turn_start: 0,
            viewport: Viewport { x: 0, y: 0, width: 10000, height: 10000 },
        };
        assert(engine@.players =~= Seq::<PlayerModel>::empty());
        engine
    }

    /// The session time in milliseconds.
    pub fn global_timer(&self) -> (elapsed: u64)
        requires
            self.wf(),
        ensures
            elapsed == self@.clock.global(),
    {
        self.clock.global_timer()
    }

    /// Whether the session is running.
    pub fn is_active(&self) -> (active: bool)
        ensures
            active == self@.clock.active,
    {
        self.clock.is_active()
    }

    /// The seat whose turn it is. On an empty roster it is 0 and names nobody.
    pub fn active_player(&self) -> (seat: usize)
        ensures
            seat == self@.active,
    {
        self.active
    }

    /// The session time at which the present turn began.
    pub fn turn_start(&self) -> (start: u64)
        ensures
            start == self@.turn_start,
    {
        self.turn_start
    }

    /// How many players sit at the table.
    pub fn player_count(&self) -> (count: usize)
        ensures
            count == self@.players.len(),
    {
        self.players.len()
    }

    /// The bounds the markers are held in.
    pub fn viewport(&self) -> (viewport: Viewport)
        ensures
            viewport == self@.viewport,
    {
        self.viewport
    }

    /// How long the present turn has lasted, in milliseconds.
    pub fn turn_elapsed(&self) -> (elapsed: u64)
        requires
            self.wf(),
        ensures
            elapsed == self@.turn_elapsed(),
    {
        self.clock.global_timer() - self.turn_start
    }

    /// Takes a ticker reading into the session clock.
    pub fn tick(&mut self, now: u64)
        requires
            old(self).wf(),
        ensures
            final(self).wf(),
            final(self)@ == old(self)@.tick(now as nat),
    {
        self.clock.tick(now);
    }

    /// Pauses a running session or resumes a paused one. Without players
    /// nothing changes.
    pub fn toggle_pause(&mut self)
        requires
            old(self).wf(),
        ensures
            final(self).wf(),
            final(self)@ == old(self)@.toggle_pause(),
    {
        if self.players.len() > 0 {
            self.clock.toggle();
        }
    }

    /// Confirms the active player's turn as done.
    pub fn advance(&mut self)
        requires
            old(self).wf(),
        ensures
            final(self).wf(),
            final(self)@ == old(self)@.advance(),
    {
        let count = self.players.len();
        if count == 0 {
            return ;
        }
        let now = self.clock.global_timer();
        let elapsed = now - self.turn_start;
        assert(self.players@[self.active as int]@ == self@.players[self.active as int]);
        self.players[self.active].record(elapsed);
        self.active = (self.active + 1) % count;
        self.turn_start = now;
        assert(self@.players =~= old(self)@.advance().players);
    }

    /// Takes the latest advance back: the turn returns to the seat before.
    pub fn undo(&mut self)
        requires
            old(self).wf(),
        ensures
            final(self).wf(),
            final(self)@ == old(self)@.undo(),
    {
        let count = self.players.len();
        if count == 0 {
            return ;
        }
        let previous = if self.active == 0 {
            count - 1
        } else {
            self.active - 1
        };
        let now = self.clock.global_timer();
        let elapsed = now - self.turn_start;
        assert(self.players@[self.active as int]@ == self@.players[self.active as int]);
        self.players[self.active].freeze(elapsed);
        let ghost parked = self@.players;
        assert(parked =~= old(self)@.players.update(
            old(self)@.active as int,
            old(self)@.players[old(self)@.active as int].frozen(old(self)@.turn_elapsed()),
        ));
        assert(self.players@[previous as int]@ == parked[previous as int]);
        self.players[previous].erase_last();
        self.active = previous;
        self.turn_start = now;
        assert(self@.players =~= old(self)@.undo().players);
    }

    /// Presses the button of seat `seat`: confirms the turn as done if it is
    /// that seat's turn, and does nothing otherwise.
    pub fn press(&mut self, seat: usize) -> (advanced: bool)
        requires
            old(self).wf(),
        ensures
            final(self).wf(),
            final(self)@ == old(self)@.press(seat as nat),
            advanced == (seat == old(self)@.active && old(self)@.players.len() > 0),
    {
        if seat == self.active && self.players.len() > 0 {
            self.advance();
            true
        } else {
            false
        }
    }

    /// Rebuilds the roster with a fresh record for each of `names`, makes
    /// the first seat active and begins its turn now.
    fn rebuild(&mut self, names: &Vec<String>)
        requires
            old(self).wf(),
        ensures
            final(self).wf(),
            final(self)@ == old(self)@.rebuilt(Seq::new(names@.len(), |i: int| names@[i]@)),
    {
        let ghost texts = Seq::new(names@.len(), |i: int| names@[i]@);
        let count = names.len();
        let mut players: Vec<Player> = Vec::new();
        let mut i: usize = 0;
        while i < count
            invariant
                i <= count,
                count == names@.len(),
                players@.len() == i,
                self.wf(),
                *self == *old(self),
                forall|j: int|
                    0 <= j < i ==> (#[trigger] players@[j])@ == old(self)@.seated(
                        j as nat,
                        names@[j]@,
                    ),
            decreases count - i,
        {
            let mut player = Player::new(i, names[i].clone());
            let pose = self.viewport.clamp(player.pose());
            player.move_to(pose);
            players.push(player);
            i += 1;
        }
        self.players = players;
        self.active = 0;
        self.turn_start = self.clock.global_timer();
        assert(self@.players =~= old(self)@.rebuilt(texts).players);
    }

    /// Takes a configuration, as the configuration form saves it. A valid
    /// one resets the game for its players: a fresh record for each name,
    /// the first seat active, its turn beginning now; nothing of the roster
    /// before is kept, whatever the names are. An invalid one is refused
    /// with what is wrong with it, and changes nothing.
    pub fn configure(&mut self, config: &Config) -> (outcome: Result<(), ConfigError>)
        requires
            old(self).wf(),
        ensures
            final(self).wf(),
            outcome == config.verdict(),
            final(self)@ == old(self)@.configure(*config),
    {
        match config.validate() {
            Ok(()) => {
                self.rebuild(&config.names);
                Ok(())
            },
            Err(error) => Err(error),
        }
    }

    /// Resets the game by hand: the players who sit at the table now get
    /// fresh records, the first seat is active, and its turn begins now.
    pub fn reset(&mut self)
        requires
            old(self).wf(),
        ensures
            final(self).wf(),
            final(self)@ == old(self)@.reset(),
    {
        let mut names: Vec<String> = Vec::new();
        let mut i: usize = 0;
        while i < self.players.len()
            invariant
                i <= self.players@.len(),
                names@.len() == i,
                forall|j: int| 0 <= j < i ==> (#[trigger] names@[j])@ == self.players@[j]@.name,
            decreases self.players@.len() - i,
        {
            names.push(self.players[i].name().clone());
            i += 1;
        }
        assert(Seq::new(names@.len(), |i: int| names@[i]@) =~= self@.names());
        self.rebuild(&names);
    }

    /// Turns the marker of seat `seat` by one step: the step is added to
    /// its rotation. Says whether the marker was turned. It is not, and
    /// nothing changes, if nobody sits at the seat or if the sum would not
    /// fit in a `u32`.
    pub fn rotate(&mut self, seat: usize) -> (turned: bool)
        requires
            old(self).wf(),
        ensures
            final(self).wf(),
            final(self)@ == old(self)@.rotate(seat as nat),
            turned == (seat < old(self)@.players.len()
                && old(self)@.players[seat as int].can_rotate()),
    {
        if seat >= self.players.len() {
            return false;
        }
        assert(self.players@[seat as int]@ == self@.players[seat as int]);
        let turned = self.players[seat].rotate();
        assert(self@.players =~= old(self)@.rotate(seat as nat).players);
        turned
    }

    /// Drags the marker of seat `seat` towards `raw`: the marker is put
    /// where the clamp to the viewport leaves `raw`, and that position is
    /// returned. If nobody sits at the seat, nothing changes and nothing is
    /// returned.
    pub fn propose_move(&mut self, seat: usize, raw: Position) -> (committed: Option<Position>)
        requires
            old(self).wf(),
        ensures
            final(self).wf(),
            final(self)@ == old(self)@.propose_move(seat as nat, raw),
            committed == if seat < old(self)@.players.len() {
                Some(old(self)@.viewport.clamped(raw))
            } else {
                None
            },
    {
        if seat >= self.players.len() {
            return None;
        }
        let pose = self.viewport.clamp(raw);
        assert(self.players@[seat as int]@ == self@.players[seat as int]);
        self.players[seat].move_to(pose);
        assert(self@.players =~= old(self)@.propose_move(seat as nat, raw).players);
        Some(pose)
    }

    /// Takes new bounds and clamps every marker to them. Says whether the
    /// bounds were taken; bounds whose inset edges no `i32` can hold are
    /// refused and change nothing.
    pub fn set_viewport(&mut self, viewport: Viewport) -> (accepted: bool)
        requires
            old(self).wf(),
        ensures
            final(self).wf(),
            final(self)@ == old(self)@.set_viewport(viewport),
            accepted == viewport.fits(),
    {
        if !viewport.check_fits() {
            return false;
        }
        let count = self.players.len();
        let mut i: usize = 0;
        while i < count
            invariant
                i <= count,
                count == self.players@.len(),
                count == old(self).players@.len(),
                viewport.fits(),
                self.clock == old(self).clock,
                self.active == old(self).active,
                self.turn_start == old(self).turn_start,
                self.viewport == old(self).viewport,
                forall|j: int|
                    0 <= j < i ==> (#[trigger] self.players@[j])@ == old(self).players@[j]@.moved(
                        viewport.clamped(old(self).players@[j]@.pose),
                    ),
                forall|j: int|
                    i <= j < count ==> (#[trigger] self.players@[j])@ == old(self).players@[j]@,
            decreases count - i,
        {
            let pose = viewport.clamp(self.players[i].pose());
            self.players[i].move_to(pose);
            i += 1;
        }
        self.viewport = viewport;
        assert(self@.players =~= old(self)@.set_viewport(viewport).players);
        true
    }

    /// The roster in seating order, for display.
    pub fn players(&self) -> (players: &Vec<Player>)
        ensures
            records_of(players@) == self@.players,
    {
        &self.players
    }

    /// The player at seat `seat`, if anybody sits there.
    pub fn player(&self, seat: usize) -> (player: Option<&Player>)
        ensures
            seat < self@.players.len() ==> player is Some
                && player->0@ == self@.players[seat as int],
            seat >= self@.players.len() ==> player is None,
    {
        if seat < self.players.len() {
            Some(&self.players[seat])
        } else {
            None
        }
    }

    /// The turn time that seat `seat` shows, in milliseconds: the running
    /// turn time for the active seat, and for any other seat what it showed
    /// when its turn last passed on. Nothing for a seat nobody sits at.
    pub fn shown_elapsed(&self, seat: usize) -> (shown: Option<u64>)
        requires
            self.wf(),
        ensures
            seat < self@.players.len() ==> (shown matches Some(elapsed) && elapsed
                == self@.shown_elapsed(seat as nat)),
            seat >= self@.players.len() ==> shown is None,
    {
        if seat >= self.players.len() {
            None
        } else if seat == self.active {
            Some(self.clock.global_timer() - self.turn_start)
        } else {
            Some(self.players[seat].shown())
        }
    }
}

} // verus!
