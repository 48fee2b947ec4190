use vstd::prelude::*;

verus! {

/// A window rectangle in screen coordinates, as Windows reports it.
#[derive(Clone, Copy, Debug, PartialEq, Eq, Structural)]
pub struct Rect {
    pub left: i32,
    pub top: i32,
    pub right: i32,
    pub bottom: i32,
}

/// Whether an integer fits in an `i32`.
pub open spec fn fits_i32(v: int) -> bool {
    i32::MIN <= v <= i32::MAX
}

/// Half of `v`, rounded toward zero, as Rust's integer division does.
pub open spec fn half_toward_zero(v: int) -> int {
    if v >= 0 {
        v / 2
    } else {
        -((-v) / 2)
    }
}

/// Width and height of a rectangle.
pub trait RECTExt {
    spec fn width_of(&self) -> int;

    spec fn height_of(&self) -> int;

    /// `(width, height)`.
    fn dimensions(&self) -> (r: (i32, i32))
        requires
            fits_i32(self.width_of()),
            fits_i32(self.height_of()),
        ensures
            r.0 == self.width_of(),
            r.1 == self.height_of(),
    ;
}

impl RECTExt for Rect {
    open spec fn width_of(&self) -> int {
        self.right - self.left
    }

    open spec fn height_of(&self) -> int {
        self.bottom - self.top
    }

    fn dimensions(&self) -> (r: (i32, i32)) {
        (self.right - self.left, self.bottom - self.top)
    }
}

/// Whether the arithmetic of `centered_origin` stays within `i32`.
pub open spec fn centering_fits(screen: Rect, window: Rect) -> bool {
    &&& fits_i32(screen.width_of())
    &&& fits_i32(screen.height_of())
    &&& fits_i32(window.width_of())
    &&& fits_i32(window.height_of())
    &&& fits_i32(screen.width_of() - window.width_of())
    &&& fits_i32(screen.height_of() - window.height_of())
    &&& fits_i32(screen.left + half_toward_zero(screen.width_of() - window.width_of()))
    &&& fits_i32(screen.top + half_toward_zero(screen.height_of() - window.height_of()))
}

/// The top-left corner at which `window` is centred on `screen`: the screen's
/// corner plus half the difference of the sizes, rounded toward zero.
pub fn centered_origin(screen: &Rect, window: &Rect) -> (r: (i32, i32))
    requires
        centering_fits(*screen, *window),
    ensures
        r.0 == screen.left + half_toward_zero(screen.width_of() - window.width_of()),
        r.1 == screen.top + half_toward_zero(screen.height_of() - window.height_of()),
        -1 <= 2 * (r.0 - screen.left) - (screen.width_of() - window.width_of()) <= 1,
        -1 <= 2 * (r.1 - screen.top) - (screen.height_of() - window.height_of()) <= 1,
{
    let (screen_width, screen_height) = screen.dimensions();
    let (window_width, window_height) = window.dimensions();
    let x = screen.left + (screen_width - window_width) / 2;
    let y = screen.top + (screen_height - window_height) / 2;
    (x, y)
}

} // verus!
