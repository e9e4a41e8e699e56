//! One player's record: identity, name, recorded rounds and marker.

use vstd::prelude::*;
use crate::pose::Position;

verus! {

/// Horizontal distance, in pixels, between the markers of two neighbours
/// when a roster is built.
pub const SLOT_WIDTH: i32 = 120;

/// Vertical position, in pixels, of every marker when a roster is built.
pub const START_ROW: i32 = 250;

/// Degrees that one rotate action turns a marker by.
pub const ROTATION_STEP: u32 = 45;

/// The times of a vector of recorded rounds, as numbers.
pub open spec fn times_of(rounds: Seq<u64>) -> Seq<nat> {
    Seq::new(rounds.len(), |i: int| rounds[i] as nat)
}

/// The horizontal position a fresh marker gets: one slot further right for
/// each seat, and never beyond what an `i32` can hold.
pub open spec fn start_column(id: nat) -> int {
    if (id + 1) * SLOT_WIDTH <= i32::MAX {
        (id + 1) * SLOT_WIDTH
    } else {
        i32::MAX as int
    }
}

/// What a player's record is, as plain values.
pub struct PlayerModel {
    /// The seat: 0 for the first player, counting up.
    pub id: nat,
    pub name: Seq<char>,
    /// The length of each completed turn, oldest first, in milliseconds.
    pub round_times: Seq<nat>,
    /// Where the marker is.
    pub pose: Position,
    /// How far the marker is turned, in degrees: the sum of all rotate
    /// actions, not brought back into a full circle.
    pub rotation: nat,
    /// The turn time this player last showed while it was their turn.
    pub shown: nat,
}

impl PlayerModel {
    /// The record of a player who has just sat down at seat `id`.
    pub open spec fn fresh(id: nat, name: Seq<char>) -> PlayerModel {
        PlayerModel {
            id,
            name,
            round_times: Seq::empty(),
            pose: Position { x: start_column(id) as i32, y: START_ROW },
            rotation: 0,
            shown: 0,
        }
    }

    /// The record after a turn of length `elapsed` was completed.
    pub open spec fn recorded(self, elapsed: nat) -> PlayerModel {
        PlayerModel { round_times: self.round_times.push(elapsed), shown: elapsed, ..self }
    }

    /// The record after the latest round was taken back; a record without
    /// rounds stays as it is.
    pub open spec fn erased(self) -> PlayerModel {
        if self.round_times.len() > 0 {
            PlayerModel { round_times: self.round_times.drop_last(), ..self }
        } else {
            self
        }
    }

    /// The record after the turn passed on with `elapsed` on the display.
    pub open spec fn frozen(self, elapsed: nat) -> PlayerModel {
        PlayerModel { shown: elapsed, ..self }
    }

    /// The record with the marker at `pose`.
    pub open spec fn moved(self, pose: Position) -> PlayerModel {
        PlayerModel { pose, ..self }
    }

    /// The record after one more step of rotation: the step is added, and
    /// the sum is kept as it is.
    pub open spec fn rotated(self) -> PlayerModel {
        PlayerModel { rotation: self.rotation + ROTATION_STEP as nat, ..self }
    }

    /// The record after `n` more steps of rotation.
    pub open spec fn rotated_times(self, n: nat) -> PlayerModel
        decreases n,
    {
        if n == 0 {
            self
        } else {
            self.rotated_times((n - 1) as nat).rotated()
        }
    }

    /// The rotation can hold one more step: the sum still fits in a `u32`.
    pub open spec fn can_rotate(self) -> bool {
        self.rotation + ROTATION_STEP <= u32::MAX
    }

    /// The record after one rotate action: one more step of rotation, unless
    /// the sum would no longer fit in a `u32`; such an action is refused and
    /// leaves the record as it is.
    pub open spec fn turned(self) -> PlayerModel {
        if self.can_rotate() {
            self.rotated()
        } else {
            self
        }
    }

    /// The record after `n` rotate actions.
    pub open spec fn turned_times(self, n: nat) -> PlayerModel
        decreases n,
    {
        if n == 0 {
            self
        } else {
            self.turned_times((n - 1) as nat).turned()
        }
    }

    /// The rotation as a display shows it: brought into one full circle.
    pub open spec fn display_rotation(self) -> nat {
        self.rotation % 360
    }
}

/// Rotation is additive: `n` steps of rotation add `n` times the step to the
/// marker's rotation and change nothing else of the record. The sum is not
/// wrapped at a full circle.
pub proof fn rotation_is_additive(player: PlayerModel, n: nat)
    ensures
        player.rotated_times(n).rotation == player.rotation + n * ROTATION_STEP,
        player.rotated_times(n) == (PlayerModel {
            rotation: player.rotation + n * (ROTATION_STEP as nat),
            ..player
        }),
    decreases n,
{
    if n > 0 {
        rotation_is_additive(player, (n - 1) as nat);
    }
}

/// As long as the sum fits in a `u32`, rotate actions are steps of
/// rotation: `n` of them add `n` times the step. An action whose sum would
/// not fit is refused, and so is every action after it.
pub proof fn rotate_actions_add_up(player: PlayerModel, n: nat)
    ensures
        player.rotation + n * ROTATION_STEP <= u32::MAX ==> player.turned_times(n)
            == player.rotated_times(n),
        !player.can_rotate() ==> player.turned_times(n) == player,
        player.turned_times(n).rotation >= player.rotation,
    decreases n,
{
    if n > 0 {
        rotate_actions_add_up(player, (n - 1) as nat);
        rotation_is_additive(player, (n - 1) as nat);
    }
}

/// The rotation after one more step, if a `u32` can hold it.
pub fn next_rotation(degrees: u32) -> (next: Option<u32>)
    ensures
        next == if degrees + ROTATION_STEP <= u32::MAX {
            Some((degrees + ROTATION_STEP) as u32)
        } else {
            None
        },
{
    degrees.checked_add(ROTATION_STEP)
}

/// One player of the roster.
pub struct Player {
    id: usize,
    name: String,
    round_times: Vec<u64>,
    pose: Position,
    rotation: u32,
    shown: u64,
}

impl View for Player {
    type V = PlayerModel;

    closed spec fn view(&self) -> PlayerModel {
        PlayerModel {
            id: self.id as nat,
            name: self.name@,
            round_times: times_of(self.round_times@),
            pose: self.pose,
            rotation: self.rotation as nat,
            shown: self.shown as nat,
        }
    }
}

/// The records of a vector of players, in order.
pub open spec fn records_of(players: Seq<Player>) -> Seq<PlayerModel> {
    Seq::new(players.len(), |i: int| players[i]@)
}

impl Player {
    /// A player who has just sat down at seat `id`: no rounds recorded, the
    /// marker upright in its starting slot.
    pub fn new(id: usize, name: String) -> (player: Player)
        ensures
            player@ == PlayerModel::fresh(id as nat, name@),
    {
        let column: i32 = if id < 17_895_697 {
            (id as i32 + 1) * SLOT_WIDTH
        } else {
            i32::MAX
        };
        let player = Player {
            id,
            name,
            round_times: Vec::new(),
            pose: Position { x: column, y: START_ROW },
            rotation: 0,
            shown: 0,
        };
        assert(player@.round_times =~= Seq::<nat>::empty());
        player
    }

    /// The seat of this player.
    pub fn id(&self) -> (id: usize)
        ensures
            id == self@.id,
    {
        self.id
    }

    /// The name of this player.
    pub fn name(&self) -> (name: &String)
        ensures
            name@ == self@.name,
    {
        &self.name
    }

    /// The lengths of this player's completed turns, oldest first, in
    /// milliseconds.
    pub fn round_times(&self) -> (rounds: &Vec<u64>)
        ensures
            times_of(rounds@) == self@.round_times,
    {
        &self.round_times
    }

    /// How many turns this player has completed.
    pub fn rounds(&self) -> (count: usize)
        ensures
            count == self@.round_times.len(),
    {
        self.round_times.len()
    }

    /// Where this player's marker is.
    pub fn pose(&self) -> (pose: Position)
        ensures
            pose == self@.pose,
    {
        self.pose
    }

    /// How far this player's marker is turned, in degrees: the sum of all
    /// rotate actions.
    pub fn rotation_degrees(&self) -> (degrees: u32)
        ensures
            degrees == self@.rotation,
    {
        self.rotation
    }

    /// The rotation of this player's marker as a display shows it: brought
    /// into one full circle.
    pub fn display_degrees(&self) -> (degrees: u32)
        ensures
            degrees == self@.display_rotation(),
            degrees < 360,
    {
        self.rotation % 360
    }

    /// The turn time this player last showed while it was their turn.
    pub fn shown(&self) -> (elapsed: u64)
        ensures
            elapsed == self@.shown,
    {
        self.shown
    }

    /// Records a completed turn of length `elapsed`.
    pub(crate) fn record(&mut self, elapsed: u64)
        ensures
            final(self)@ == old(self)@.recorded(elapsed as nat),
    {
        self.round_times.push(elapsed);
        self.shown = elapsed;
        assert(times_of(self.round_times@) =~= times_of(old(self).round_times@).push(
            elapsed as nat,
        ));
    }

    /// Takes back the latest recorded round, if there is one.
    pub(crate) fn erase_last(&mut self)
        ensures
            final(self)@ == old(self)@.erased(),
    {
        if self.round_times.len() > 0 {
            self.round_times.pop();
            assert(times_of(self.round_times@) =~= times_of(old(self).round_times@).drop_last());
        }
    }

    /// Keeps `elapsed` as the turn time on display.
    pub(crate) fn freeze(&mut self, elapsed: u64)
        ensures
            final(self)@ == old(self)@.frozen(elapsed as nat),
    {
        self.shown = elapsed;
    }

    /// Puts the marker at `pose`.
    pub(crate) fn move_to(&mut self, pose: Position)
        ensures
            final(self)@ == old(self)@.moved(pose),
    {
        self.pose = pose;
    }

    /// Turns the marker by one step. Says whether it was turned: the action
    /// is refused, and changes nothing, where the sum would not fit.
    pub(crate) fn rotate(&mut self) -> (turned: bool)
        ensures
            turned == old(self)@.can_rotate(),
            final(self)@ == old(self)@.turned(),
    {
        match next_rotation(self.rotation) {
            Some(next) => {
                self.rotation = next;
                true
            },
            None => false,
        }
    }
}

} // verus!
