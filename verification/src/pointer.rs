//! Window extent and the pointer position normalised by it.
use vstd::prelude::*;

verus! {

/// The extent of the window's drawable area in physical pixels.
#[derive(Clone, Copy, Debug, PartialEq, Eq)]
pub struct WindowSize {
    pub width: u32,
    pub height: u32,
}

impl WindowSize {
    /// Neither extent is zero, so both can serve as a divisor.
    pub open spec fn has_area(self) -> bool {
        self.width > 0 && self.height > 0
    }

    /// Tells whether neither extent is zero.
    pub fn is_divisor(&self) -> (ok: bool)
        ensures
            ok == self.has_area(),
    {
        self.width > 0 && self.height > 0
    }
}

/// A quotient `num / den` that is kept as written, neither reduced nor
/// rounded.
#[derive(Clone, Copy, Debug, PartialEq, Eq)]
pub struct Ratio {
    pub num: i32,
    pub den: u32,
}

impl Ratio {
    /// The quotient is defined.
    pub open spec fn wf(self) -> bool {
        self.den > 0
    }

    /// The quotient lies in `[0, 1]`.
    pub open spec fn in_unit_interval(self) -> bool {
        0 <= self.num <= self.den
    }
}

/// The last known pointer position, each axis divided by the window extent
/// that was current when the pointer moved.
#[derive(Clone, Copy, Debug, PartialEq, Eq)]
pub struct PointerState {
    pub x_norm: Ratio,
    pub y_norm: Ratio,
}

impl PointerState {
    /// Both quotients are defined.
    pub open spec fn wf(self) -> bool {
        self.x_norm.wf() && self.y_norm.wf()
    }

    /// Both coordinates lie in `[0, 1]`.
    pub open spec fn in_unit_square(self) -> bool {
        self.x_norm.in_unit_interval() && self.y_norm.in_unit_interval()
    }

    /// The position before any pointer event: `(0, 0)`.
    pub open spec fn at_origin() -> PointerState {
        PointerState { x_norm: Ratio { num: 0, den: 1 }, y_norm: Ratio { num: 0, den: 1 } }
    }

    /// Pixel position `(px, py)` divided by the extent `size`.
    pub open spec fn normalized(px: i32, py: i32, size: WindowSize) -> PointerState {
        PointerState {
            x_norm: Ratio { num: px, den: size.width },
            y_norm: Ratio { num: py, den: size.height },
        }
    }

    /// The pointer state after the pointer moved to pixel `(px, py)` in a
    /// window of extent `size`.  A window without area cannot normalise, and
    /// the last known position stays.
    pub open spec fn moved_to(self, px: i32, py: i32, size: WindowSize) -> PointerState {
        if size.has_area() {
            Self::normalized(px, py, size)
        } else {
            self
        }
    }

    /// The position before any pointer event.
    pub fn origin() -> (p: PointerState)
        ensures
            p == Self::at_origin(),
            p.wf(),
    {
        PointerState { x_norm: Ratio { num: 0, den: 1 }, y_norm: Ratio { num: 0, den: 1 } }
    }

    /// Divides the pixel position `(px, py)` by the extent `size`.  Positions
    /// outside the window are not clamped.  There is no result for a window
    /// without area.
    pub fn normalize(px: i32, py: i32, size: WindowSize) -> (p: Option<PointerState>)
        ensures
            size.has_area() ==> p == Some(Self::normalized(px, py, size)),
            !size.has_area() ==> p.is_none(),
            p.is_some() ==> p.unwrap().wf(),
    {
        if size.is_divisor() {
            Some(
                PointerState {
                    x_norm: Ratio { num: px, den: size.width },
                    y_norm: Ratio { num: py, den: size.height },
                },
            )
        } else {
            None
        }
    }

    /// Records a pointer move to pixel `(px, py)` in a window of extent
    /// `size`.
    pub fn record_move(&mut self, px: i32, py: i32, size: WindowSize)
        ensures
            *final(self) == old(self).moved_to(px, py, size),
            old(self).wf() ==> final(self).wf(),
    {
        match Self::normalize(px, py, size) {
            Some(p) => {
                *self = p;
            },
            None => {},
        }
    }
}

/// With an extent that has area, a pointer move yields exactly the pixel
/// position over the extent, on each axis, and the quotients are defined.
pub proof fn lemma_move_normalizes(before: PointerState, px: i32, py: i32, size: WindowSize)
    requires
        size.width > 0,
        size.height > 0,
    ensures
        before.moved_to(px, py, size).x_norm == (Ratio { num: px, den: size.width }),
        before.moved_to(px, py, size).y_norm == (Ratio { num: py, den: size.height }),
        before.moved_to(px, py, size).wf(),
{
}

/// With an extent of which either side is zero, a pointer move leaves the
/// pointer state as it was.
pub proof fn lemma_move_without_area_keeps(
    before: PointerState,
    px: i32,
    py: i32,
    size: WindowSize,
)
    requires
        size.width == 0 || size.height == 0,
    ensures
        before.moved_to(px, py, size) == before,
{
}

/// A normalised position lies in the unit square exactly when the pixel
/// position lies within the window, borders included.  Outside of it the
/// quotient passes through as it is.
pub proof fn lemma_unit_square_iff_inside(px: i32, py: i32, size: WindowSize)
    requires
        size.has_area(),
    ensures
        PointerState::normalized(px, py, size).in_unit_square() <==> (0 <= px <= size.width && 0
            <= py <= size.height),
{
}

} // verus!
