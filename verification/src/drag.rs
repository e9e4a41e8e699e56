//! Dragging a marker: from the pointer's position to the position proposed
//! for the marker.
//!
//! A drag begins when the pointer goes down on a marker. It remembers how
//! far the pointer was from the marker, and proposes for every later pointer
//! position the one that keeps that distance. The engine clamps each
//! proposal to the viewport.

use vstd::prelude::*;
use crate::engine::Engine;
use crate::pose::Position;

verus! {

/// The coordinate nearest to `v` that an `i32` can hold.
pub open spec fn saturated(v: int) -> int {
    if v < i32::MIN {
        i32::MIN as int
    } else if v > i32::MAX {
        i32::MAX as int
    } else {
        v
    }
}

/// A drag in progress.
pub struct Drag {
    seat: usize,
    offset_x: i64,
    offset_y: i64,
}

impl Drag {
    /// The seat whose marker is dragged.
    pub closed spec fn seat(&self) -> nat {
        self.seat as nat
    }

    /// How far right of the marker the pointer went down.
    pub closed spec fn offset_x(&self) -> int {
        self.offset_x as int
    }

    /// How far below the marker the pointer went down.
    pub closed spec fn offset_y(&self) -> int {
        self.offset_y as int
    }

    /// The offsets are differences of two pixel coordinates.
    pub open spec fn wf(&self) -> bool {
        &&& i32::MIN - i32::MAX <= self.offset_x() <= i32::MAX - i32::MIN
        &&& i32::MIN - i32::MAX <= self.offset_y() <= i32::MAX - i32::MIN
    }

    /// The position proposed for the marker while the pointer is at
    /// `pointer`: as far from the pointer as the marker was when the drag
    /// began, and no further out than an `i32` can hold.
    pub open spec fn proposal(&self, pointer: Position) -> Position {
        Position {
            x: saturated(pointer.x - self.offset_x()) as i32,
            y: saturated(pointer.y - self.offset_y()) as i32,
        }
    }

    /// Begins a drag of the marker of seat `seat`, which stands at `pose`,
    /// with the pointer at `pointer`.
    pub fn begin(seat: usize, pointer: Position, pose: Position) -> (drag: Drag)
        ensures
            drag.wf(),
            drag.seat() == seat,
            drag.offset_x() == pointer.x - pose.x,
            drag.offset_y() == pointer.y - pose.y,
            drag.proposal(pointer) == pose,
    {
        Drag {
            seat,
            offset_x: pointer.x as i64 - pose.x as i64,
            offset_y: pointer.y as i64 - pose.y as i64,
        }
    }

    /// Begins a drag of the marker of seat `seat` of `engine`, with the
    /// pointer at `pointer`. There is nothing to drag at a seat nobody sits at.
    pub fn grab(engine: &Engine, seat: usize, pointer: Position) -> (drag: Option<Drag>)
        ensures
            drag is Some <==> seat < engine@.players.len(),
            drag matches Some(d) ==> {
                &&& d.wf()
                &&& d.seat() == seat
                &&& d.offset_x() == pointer.x - engine@.players[seat as int].pose.x
                &&& d.offset_y() == pointer.y - engine@.players[seat as int].pose.y
                &&& d.proposal(pointer) == engine@.players[seat as int].pose
            },
    {
        match engine.player(seat) {
            Some(player) => Some(Drag::begin(seat, pointer, player.pose())),
            None => None,
        }
    }

    /// The seat whose marker is dragged.
    pub fn dragged_seat(&self) -> (seat: usize)
        ensures
            seat == self.seat(),
    {
        self.seat
    }

    /// The position proposed for the marker while the pointer is at `pointer`.
    pub fn target(&self, pointer: Position) -> (proposed: Position)
        requires
            self.wf(),
        ensures
            proposed == self.proposal(pointer),
    {
        Position {
            x: saturate(pointer.x as i64 - self.offset_x),
            y: saturate(pointer.y as i64 - self.offset_y),
        }
    }

    /// Follows the pointer to `pointer`: proposes the matching position for
    /// the dragged marker to `engine`, which clamps it and puts the marker
    /// there. Returns where the marker now stands, or nothing if nobody sits
    /// at the dragged seat any more.
    pub fn follow(&self, engine: &mut Engine, pointer: Position) -> (committed: Option<Position>)
        requires
            self.wf(),
            old(engine).wf(),
        ensures
            final(engine).wf(),
            final(engine)@ == old(engine)@.propose_move(self.seat(), self.proposal(pointer)),
            committed == if self.seat() < old(engine)@.players.len() {
                Some(old(engine)@.viewport.clamped(self.proposal(pointer)))
            } else {
                None
            },
    {
        let proposed = self.target(pointer);
        engine.propose_move(self.seat, proposed)
    }
}

/// The `i32` nearest to `v`.
pub fn saturate(v: i64) -> (r: i32)
    ensures
        r == saturated(v as int),
{
    if v < -2147483648i64 {
        i32::MIN
    } else if v > 2147483647i64 {
        i32::MAX
    } else {
        v as i32
    }
}

} // verus!
