//! What holds of the engine in every state and after every operation.

use vstd::prelude::*;
use vstd::arithmetic::div_mod::{lemma_mod_self_0, lemma_small_mod};
use crate::config::Config;
use crate::clock::{tick_follows_the_ticker, toggle_is_continuous};
use crate::engine_model::{EngineModel, Operation};
use crate::player::PlayerModel;
use crate::pose::clamp_is_idempotent;

verus! {

/// Rebuilding the roster leaves a consistent state consistent, whatever the
/// names are.
pub proof fn rebuilding_keeps_the_state_consistent(s: EngineModel, names: Seq<Seq<char>>)
    requires
        s.wf(),
    ensures
        s.rebuilt(names).wf(),
{
    assert forall|i: int| 0 <= i < names.len() implies s.viewport.holds(
        #[trigger] s.rebuilt(names).players[i].pose,
    ) by {
        clamp_is_idempotent(PlayerModel::fresh(i as nat, names[i]).pose, s.viewport);
    }
}

/// Every operation leaves a consistent state consistent, and none moves the
/// session time back.
pub proof fn every_operation_keeps_the_state_consistent(s: EngineModel, operation: Operation)
    requires
        s.wf(),
    ensures
        s.apply(operation).wf(),
        s.apply(operation).clock.global() >= s.clock.global(),
{
    match operation {
        Operation::Tick(now) => {
            tick_follows_the_ticker(s.clock, now);
        },
        Operation::TogglePause => {
            toggle_is_continuous(s.clock);
        },
        Operation::Reset => {
            rebuilding_keeps_the_state_consistent(s, s.names());
        },
        Operation::Configure(config) => {
            rebuilding_keeps_the_state_consistent(s, config.names_text());
        },
        Operation::ProposeMove(seat, raw) => {
            clamp_is_idempotent(raw, s.viewport);
        },
        Operation::SetViewport(viewport) => {
            if viewport.fits() {
                assert forall|i: int| 0 <= i < s.players.len() implies viewport.holds(
                    #[trigger] s.set_viewport(viewport).players[i].pose,
                ) by {
                    clamp_is_idempotent(s.players[i].pose, viewport);
                }
            }
        },
        Operation::Advance | Operation::Undo | Operation::Press(_) | Operation::Rotate(_) => {},
    }
}

/// Every state that operations lead to from a consistent one is consistent,
/// and the session time never decreases on the way, whatever the operations
/// are and in whatever order they come. The initial state is consistent.
pub proof fn every_run_is_consistent(s: EngineModel, operations: Seq<Operation>)
    requires
        s.wf(),
    ensures
        EngineModel::initial().wf(),
        s.run(operations).wf(),
        s.run(operations).clock.global() >= s.clock.global(),
    decreases operations.len(),
{
    if operations.len() > 0 {
        every_run_is_consistent(s, operations.drop_last());
        every_operation_keeps_the_state_consistent(
            s.run(operations.drop_last()),
            operations.last(),
        );
    }
}

/// The session time of the engine is that of its clock: a reading never
/// moves it back, a reading taken while paused does not move it, and the
/// pause switch does not move it.
pub proof fn session_time_never_rewinds(s: EngineModel, now: nat)
    requires
        s.wf(),
    ensures
        s.tick(now).clock.global() >= s.clock.global(),
        !s.clock.active ==> s.tick(now).clock.global() == s.clock.global(),
        s.toggle_pause().clock.global() == s.clock.global(),
{
}

/// An advance keeps history: it appends exactly one entry to the rounds of
/// the player whose turn it was, that entry is the session time that has
/// passed since the turn began, and no other record changes. The turn
/// passes to the next seat and begins at the present session time.
pub proof fn advance_records_the_turn(s: EngineModel)
    requires
        s.wf(),
        s.players.len() > 0,
    ensures
        s.advance().players.len() == s.players.len(),
        s.advance().players[s.active as int].round_times
            == s.players[s.active as int].round_times.push(
            (s.clock.global() - s.turn_start) as nat,
        ),
        s.advance().players[s.active as int].round_times.len()
            == s.players[s.active as int].round_times.len() + 1,
        s.advance().players[s.active as int].round_times.last()
            == s.clock.global() - s.turn_start,
        forall|i: int|
            0 <= i < s.players.len() && i != s.active
                ==> #[trigger] s.advance().players[i] == s.players[i],
        s.advance().active == (s.active + 1) % s.players.len(),
        s.advance().turn_start == s.clock.global(),
        s.advance().clock == s.clock,
{
}

/// Going round the table, the seat after the active one is the one to its
/// right, and the first seat after the last; the seat before the seat after
/// is the active seat again.
pub proof fn next_seat_goes_round(s: EngineModel)
    requires
        s.wf(),
        s.players.len() > 0,
    ensures
        s.next_seat() == if s.active + 1 < s.players.len() {
            s.active + 1
        } else {
            0
        },
        s.next_seat() < s.players.len(),
        s.advance().previous_seat() == s.active,
{
    if s.active + 1 < s.players.len() {
        lemma_small_mod(s.active + 1, s.players.len());
    } else {
        lemma_mod_self_0(s.players.len() as int);
    }
}

/// Between `earlier` and `later` nobody touched the table: the roster and
/// the turn pointer are the same, whatever the clock has done.
pub open spec fn same_table(earlier: EngineModel, later: EngineModel) -> bool {
    &&& later.players == earlier.players
    &&& later.active == earlier.active
}

/// An undo takes an advance back, however much time has passed in between:
/// the turn pointer returns to the seat it was at before the advance, and
/// every player has the rounds they had before it. (The turn's start does
/// not return: at a table with players the turn begins anew at the time of
/// the undo.)
pub proof fn undo_reverts_advance(s: EngineModel, later: EngineModel)
    requires
        s.wf(),
        same_table(s.advance(), later),
    ensures
        later.undo().active == s.active,
        later.undo().players.len() == s.players.len(),
        forall|i: int|
            0 <= i < s.players.len()
                ==> (#[trigger] later.undo().players[i]).round_times == s.players[i].round_times,
        s.players.len() > 0 ==> later.undo().turn_start == later.clock.global(),
{
    if s.players.len() > 0 {
        next_seat_goes_round(s);
    }
}

/// An undo always moves the turn back by one seat, and erases at most the
/// latest round of the player the turn returns to: if that player has no
/// round, nothing is erased. The rounds of every other player stay.
pub proof fn undo_moves_the_turn_back(s: EngineModel)
    requires
        s.wf(),
        s.players.len() > 0,
    ensures
        s.undo().active == s.previous_seat(),
        s.undo().active < s.players.len(),
        s.undo().players.len() == s.players.len(),
        s.undo().turn_start == s.clock.global(),
        s.undo().clock == s.clock,
        s.undo().players[s.previous_seat() as int].round_times
            == s.players[s.previous_seat() as int].erased().round_times,
        s.players[s.previous_seat() as int].round_times.len() == 0
            ==> s.undo().players[s.previous_seat() as int].round_times.len() == 0,
        s.players[s.previous_seat() as int].round_times.len() > 0
            ==> s.undo().players[s.previous_seat() as int].round_times
            == s.players[s.previous_seat() as int].round_times.drop_last(),
        forall|i: int|
            0 <= i < s.players.len() && i != s.previous_seat()
                ==> (#[trigger] s.undo().players[i]).round_times == s.players[i].round_times,
{
}

/// A rebuilt roster is fresh whatever came before: the first seat is
/// active, there is one record for each name, in order, none of them has a
/// round, and the turn begins at the present session time. The clock and
/// the viewport are untouched.
pub proof fn a_rebuilt_roster_is_fresh(s: EngineModel, names: Seq<Seq<char>>)
    ensures
        s.rebuilt(names).active == 0,
        s.rebuilt(names).players.len() == names.len(),
        forall|i: int|
            0 <= i < names.len() ==> {
                &&& (#[trigger] s.rebuilt(names).players[i]).round_times.len() == 0
                &&& s.rebuilt(names).players[i].id == i
                &&& s.rebuilt(names).players[i].name == names[i]
                &&& s.rebuilt(names).players[i].rotation == 0
                &&& s.rebuilt(names).players[i].shown == 0
            },
        s.rebuilt(names).turn_start == s.clock.global(),
        s.rebuilt(names).clock == s.clock,
        s.rebuilt(names).viewport == s.viewport,
{
}

/// A reset starts afresh, regardless of the state before: the first seat is
/// active and no player has a round. The players are the same, by seat and
/// by name, and the turn begins at the present session time.
pub proof fn reset_starts_afresh(s: EngineModel)
    ensures
        s.reset().active == 0,
        s.reset().players.len() == s.players.len(),
        forall|i: int|
            0 <= i < s.players.len() ==> {
                &&& (#[trigger] s.reset().players[i]).round_times.len() == 0
                &&& s.reset().players[i].id == i
                &&& s.reset().players[i].name == s.players[i].name
            },
        s.reset().turn_start == s.clock.global(),
        s.reset().clock == s.clock,
{
}

/// A valid configuration resets the game for the players it names,
/// regardless of the state before: the first seat is active, there is one
/// player for each name, and none has a round. An invalid configuration
/// leaves the state as it is.
pub proof fn a_configuration_resets_or_is_refused(s: EngineModel, config: Config)
    ensures
        !config.valid() ==> s.configure(config) == s,
        config.valid() ==> {
            &&& s.configure(config).active == 0
            &&& s.configure(config).players.len() == config.nplayers
            &&& forall|i: int|
                0 <= i < config.nplayers ==> {
                    &&& (#[trigger] s.configure(config).players[i]).round_times.len() == 0
                    &&& s.configure(config).players[i].id == i
                    &&& s.configure(config).players[i].name == config.names@[i]@
                }
            &&& s.configure(config).turn_start == s.clock.global()
            &&& s.configure(config).clock == s.clock
        },
{
}

/// The start of the turn is the session time at which the turn last began:
/// an operation that begins a turn sets the start to the session time of
/// that moment, and every other operation leaves the turn pointer and the
/// start of the turn as they are.
pub proof fn turn_start_marks_the_beginning_of_the_turn(s: EngineModel, operation: Operation)
    requires
        s.wf(),
    ensures
        s.begins_a_turn(operation) ==> {
            &&& s.apply(operation).turn_start == s.clock.global()
            &&& s.apply(operation).clock == s.clock
            &&& s.apply(operation).turn_elapsed() == 0
        },
        !s.begins_a_turn(operation) ==> {
            &&& s.apply(operation).turn_start == s.turn_start
            &&& s.apply(operation).active == s.active
        },
{
}

/// Without players the engine is inert: advance, undo, the pause switch and
/// every button leave the state exactly as it is.
pub proof fn empty_roster_is_inert(s: EngineModel, seat: nat)
    requires
        s.players.len() == 0,
    ensures
        s.advance() == s,
        s.undo() == s,
        s.toggle_pause() == s,
        s.press(seat) == s,
        s.rotate(seat) == s,
{
}

} // verus!
