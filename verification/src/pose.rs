//! Keeping a draggable marker inside the viewport.
//!
//! A marker's position is held between the two inset edges of each axis of
//! the viewport. The rule is a pure function of the position and the
//! viewport; it is applied to every proposed drag position and again to
//! every stored position whenever the viewport changes.

use vstd::prelude::*;

verus! {

/// Inset, in pixels, that keeps a marker's centre away from the viewport's edge.
pub const MARGIN: i32 = 20;

/// A marker's position in pixels.
#[derive(Clone, Copy, Debug, PartialEq, Eq, Structural)]
pub struct Position {
    pub x: i32,
    pub y: i32,
}

/// The rectangle, in pixels, that markers must stay inside.
#[derive(Clone, Copy, Debug, PartialEq, Eq, Structural)]
pub struct Viewport {
    pub x: i32,
    pub y: i32,
    pub width: i32,
    pub height: i32,
}

/// The lowest coordinate a marker may take on an axis that starts at `origin`.
pub open spec fn lower_edge(origin: int) -> int {
    origin + MARGIN
}

/// The highest coordinate a marker may take on an axis that starts at
/// `origin` and is `extent` long.
pub open spec fn upper_edge(origin: int, extent: int) -> int {
    origin + extent - MARGIN
}

/// Where the coordinate `p` lands on an axis that starts at `origin` and is
/// `extent` long: raised to the lower edge first, lowered to the upper edge
/// last. On an axis too short for both insets the two edges cross, and the
/// upper edge wins for every `p`.
pub open spec fn clamp_axis(p: int, origin: int, extent: int) -> int {
    let raised = if p < lower_edge(origin) { lower_edge(origin) } else { p };
    if raised > upper_edge(origin, extent) { upper_edge(origin, extent) } else { raised }
}

/// Both inset edges of the axis are pixel coordinates that an `i32` can hold.
pub open spec fn axis_fits(origin: int, extent: int) -> bool {
    &&& i32::MIN <= lower_edge(origin) <= i32::MAX
    &&& i32::MIN <= upper_edge(origin, extent) <= i32::MAX
}

/// Decides whether both inset edges of an axis can be held in an `i32`.
pub fn check_axis(origin: i32, extent: i32) -> (fits: bool)
    ensures
        fits == axis_fits(origin as int, extent as int),
{
    let upper: i64 = origin as i64 + extent as i64 - MARGIN as i64;
    origin <= i32::MAX - MARGIN && -2147483648i64 <= upper && upper <= 2147483647i64
}

/// Clamps one coordinate to the inset edges of its axis.
pub fn clamp_coordinate(p: i32, origin: i32, extent: i32) -> (r: i32)
    requires
        axis_fits(origin as int, extent as int),
    ensures
        r == clamp_axis(p as int, origin as int, extent as int),
{
    let lower: i32 = origin + MARGIN;
    let upper: i32 = (origin as i64 + extent as i64 - MARGIN as i64) as i32;
    let raised: i32 = if p < lower { lower } else { p };
    if raised > upper { upper } else { raised }
}

impl Viewport {
    /// The inset edges of both axes are coordinates that an `i32` can hold.
    /// Every viewport a screen can show is of this kind.
    pub open spec fn fits(&self) -> bool {
        &&& axis_fits(self.x as int, self.width as int)
        &&& axis_fits(self.y as int, self.height as int)
    }

    /// The position that `p` is moved to so that it lies inside this viewport.
    pub open spec fn clamped(&self, p: Position) -> Position {
        Position {
            x: clamp_axis(p.x as int, self.x as int, self.width as int) as i32,
            y: clamp_axis(p.y as int, self.y as int, self.height as int) as i32,
        }
    }

    /// `p` is where the clamp leaves it: it needs no correction in this viewport.
    pub open spec fn holds(&self, p: Position) -> bool {
        self.clamped(p) == p
    }

    /// Decides whether the inset edges of this viewport can be held in `i32`s.
    pub fn check_fits(&self) -> (fits: bool)
        ensures
            fits == self.fits(),
    {
        check_axis(self.x, self.width) && check_axis(self.y, self.height)
    }

    /// Moves `p` inside this viewport, each axis on its own.
    pub fn clamp(&self, p: Position) -> (r: Position)
        requires
            self.fits(),
        ensures
            r == self.clamped(p),
            r.x == clamp_axis(p.x as int, self.x as int, self.width as int),
            r.y == clamp_axis(p.y as int, self.y as int, self.height as int),
            self.holds(r),
    {
        Position {
            x: clamp_coordinate(p.x, self.x, self.width),
            y: clamp_coordinate(p.y, self.y, self.height),
        }
    }
}

/// Clamping a coordinate that was already clamped changes nothing, on every
/// axis, also on one whose edges cross.
pub proof fn clamp_axis_is_idempotent(p: int, origin: int, extent: int)
    ensures
        clamp_axis(clamp_axis(p, origin, extent), origin, extent) == clamp_axis(
            p,
            origin,
            extent,
        ),
{
}

/// On an axis long enough for both insets the clamped coordinate lies
/// between the two edges, and a coordinate between them is left alone.
pub proof fn clamp_axis_stays_between_edges(p: int, origin: int, extent: int)
    requires
        extent >= 2 * MARGIN,
    ensures
        lower_edge(origin) <= clamp_axis(p, origin, extent) <= upper_edge(origin, extent),
        lower_edge(origin) <= p <= upper_edge(origin, extent) ==> clamp_axis(p, origin, extent)
            == p,
{
}

/// On an axis too short for both insets every coordinate lands on the upper edge.
pub proof fn clamp_axis_of_crossed_edges(p: int, origin: int, extent: int)
    requires
        extent < 2 * MARGIN,
    ensures
        clamp_axis(p, origin, extent) == upper_edge(origin, extent),
{
}

/// In a viewport whose inset edges an `i32` can hold, the clamp of a
/// position is the clamp of its coordinates, axis by axis, with nothing lost
/// to the width of the integers.
pub proof fn clamp_follows_the_axes(p: Position, v: Viewport)
    requires
        v.fits(),
    ensures
        v.clamped(p).x == clamp_axis(p.x as int, v.x as int, v.width as int),
        v.clamped(p).y == clamp_axis(p.y as int, v.y as int, v.height as int),
{
}

/// Clamping is idempotent: a position that was clamped to a viewport is left
/// where it is by a second clamp to the same viewport.
pub proof fn clamp_is_idempotent(p: Position, v: Viewport)
    requires
        v.fits(),
    ensures
        v.clamped(v.clamped(p)) == v.clamped(p),
        v.holds(v.clamped(p)),
{
}

} // verus!
