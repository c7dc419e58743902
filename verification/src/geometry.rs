//! Windows over the world plane and the difference between two of them.
//!
//! A client looks at the world through a [`Window`]. When it moves its
//! window, only the part of the new window that the old one did not show has
//! to be fetched; [`Window::difference`] names that part as a [`Shape`].

use vstd::prelude::*;

verus! {

/// The widest view a client is expected to ask for.
pub const MAX_WIDTH: i32 = 23040;

/// The tallest view a client is expected to ask for.
pub const MAX_HEIGHT: i32 = 12960;

/// A point of the world plane.
#[derive(Clone, Copy, Debug, PartialEq, Eq, Structural)]
pub struct Point {
    pub x: i32,
    pub y: i32,
}

/// A closed path of six vertices, `p1` to `p6` and back to `p1`.
#[derive(Clone, Copy, Debug, PartialEq, Eq, Structural)]
pub struct Polygon {
    pub p1: Point,
    pub p2: Point,
    pub p3: Point,
    pub p4: Point,
    pub p5: Point,
    pub p6: Point,
}

/// An area of the world to fetch magnets from.
#[derive(Clone, Copy, Debug, PartialEq, Eq, Structural)]
pub enum Shape {
    Window(Window),
    Polygon(Polygon),
}

/// An axis-aligned rectangle given by its lower corner `(x1, y1)` and its
/// upper corner `(x2, y2)`.
#[derive(Clone, Copy, Debug, PartialEq, Eq, Structural)]
pub struct Window {
    pub x1: i32,
    pub y1: i32,
    pub x2: i32,
    pub y2: i32,
}

/// One extent `[lo, hi]` after widening: an extent longer than `cap` grows
/// by half of the excess at each end, any other stays as it is.
pub open spec fn widened(lo: int, hi: int, cap: int) -> (int, int) {
    if hi - lo > cap {
        (lo - (hi - lo - cap) / 2, hi + (hi - lo - cap) / 2)
    } else {
        (lo, hi)
    }
}

/// Whether the vertical edge from `a` to `b` is met by the ray that leaves
/// `(x, y)` towards larger `x`. The lower end of an edge counts, the upper
/// end does not, so that a ray through a vertex meets one of the two edges
/// that join there.
pub open spec fn edge_met(a: Point, b: Point, x: int, y: int) -> bool {
    a.x == b.x && x < a.x && ((a.y <= y < b.y) || (b.y <= y < a.y))
}

/// 1 where `edge_met`, else 0.
pub open spec fn edge_count(a: Point, b: Point, x: int, y: int) -> int {
    if edge_met(a, b, x, y) {
        1
    } else {
        0
    }
}

impl Point {
    /// Whether the point lies on one of the four sides of `w`.
    pub open spec fn on_border(self, w: Window) -> bool {
        &&& w.covers(self.x as int, self.y as int)
        &&& (self.x == w.x1 || self.x == w.x2 || self.y == w.y1 || self.y == w.y2)
    }
}

impl Polygon {
    /// Every edge is parallel to an axis.
    pub open spec fn is_rectilinear(self) -> bool {
        &&& (self.p1.x == self.p2.x || self.p1.y == self.p2.y)
        &&& (self.p2.x == self.p3.x || self.p2.y == self.p3.y)
        &&& (self.p3.x == self.p4.x || self.p3.y == self.p4.y)
        &&& (self.p4.x == self.p5.x || self.p4.y == self.p5.y)
        &&& (self.p5.x == self.p6.x || self.p5.y == self.p6.y)
        &&& (self.p6.x == self.p1.x || self.p6.y == self.p1.y)
    }

    /// How many edges the ray from `(x, y)` towards larger `x` meets.
    pub open spec fn crossings(self, x: int, y: int) -> int {
        edge_count(self.p1, self.p2, x, y) + edge_count(self.p2, self.p3, x, y) + edge_count(
            self.p3,
            self.p4,
            x,
            y,
        ) + edge_count(self.p4, self.p5, x, y) + edge_count(self.p5, self.p6, x, y) + edge_count(
            self.p6,
            self.p1,
            x,
            y,
        )
    }

    /// Whether `(x, y)` lies inside a rectilinear polygon, by the even-odd
    /// rule: a point is inside when a ray from it meets the outline an odd
    /// number of times. A point on a left or lower edge is inside, one on a
    /// right or upper edge is not.
    pub open spec fn encloses(self, x: int, y: int) -> bool {
        self.crossings(x, y) % 2 == 1
    }

    /// Whether `p` is one of the six vertices.
    pub open spec fn has_vertex(self, p: Point) -> bool {
        p == self.p1 || p == self.p2 || p == self.p3 || p == self.p4 || p == self.p5 || p
            == self.p6
    }
}

impl Shape {
    /// Whether every point that `new` shows and `old` does not lies in a
    /// window shape. Says nothing of a polygon.
    pub open spec fn window_covers_unseen(self, old: Window, new: Window) -> bool {
        self matches Shape::Window(w) ==> forall|x: int, y: int|
            new.covers(x, y) && !old.covers(x, y) ==> #[trigger] w.covers(x, y)
    }
}

impl Window {
    /// The closed rectangle: both corners and all four sides belong to it.
    pub open spec fn covers(self, x: int, y: int) -> bool {
        self.x1 <= x <= self.x2 && self.y1 <= y <= self.y2
    }

    /// The rectangle without its right and upper side.
    pub open spec fn holds(self, x: int, y: int) -> bool {
        self.x1 <= x < self.x2 && self.y1 <= y < self.y2
    }

    /// A window is valid when it has an inside.
    pub open spec fn is_nonempty(self) -> bool {
        self.x2 > self.x1 && self.y2 > self.y1
    }

    /// Extent along `x`.
    pub open spec fn width(self) -> int {
        self.x2 - self.x1
    }

    /// Extent along `y`.
    pub open spec fn height(self) -> int {
        self.y2 - self.y1
    }

    /// The corners of the window after widening, as unbounded integers.
    pub open spec fn widened_corners(self) -> (int, int, int, int) {
        let (x1, x2) = widened(self.x1 as int, self.x2 as int, MAX_WIDTH as int);
        let (y1, y2) = widened(self.y1 as int, self.y2 as int, MAX_HEIGHT as int);
        (x1, y1, x2, y2)
    }

    /// Whether the widened corners are coordinates again.
    pub open spec fn can_clamp(self) -> bool {
        let (x1, y1, x2, y2) = self.widened_corners();
        &&& i32::MIN <= x1 && x2 <= i32::MAX
        &&& i32::MIN <= y1 && y2 <= i32::MAX
    }

    /// The window after widening. Its corners are the widened ones where
    /// these are coordinates again.
    pub open spec fn clamped(self) -> Window {
        let (x1, y1, x2, y2) = self.widened_corners();
        Window { x1: x1 as i32, y1: y1 as i32, x2: x2 as i32, y2: y2 as i32 }
    }

    /// The two windows share no inner point: on one axis, one ends where
    /// the other begins or before.
    pub open spec fn apart(self, other: Window) -> bool {
        self.x2 <= other.x1 || self.x1 >= other.x2 || self.y2 <= other.y1 || self.y1 >= other.y2
    }

    /// `self` lies in `other`, sides included.
    pub open spec fn within(self, other: Window) -> bool {
        other.x1 <= self.x1 && self.x2 <= other.x2 && other.y1 <= self.y1 && self.y2 <= other.y2
    }

    /// The part of `new` beyond `self` along `y`, for two windows with one
    /// extent along `x` that overlap along `y` and of which neither holds the
    /// other: where `new` reaches above `self`, the band from the upper side
    /// of `self` to the upper side of `new`; else the band from the lower
    /// side of `new` to the lower side of `self`.
    pub open spec fn band_along_y(self, new: Window) -> Window {
        if new.y2 > self.y2 {
            Window { x1: new.x1, y1: self.y2, x2: new.x2, y2: new.y2 }
        } else {
            Window { x1: new.x1, y1: new.y1, x2: new.x2, y2: self.y1 }
        }
    }

    /// The part of `new` beyond `self` along `x`, for two windows with one
    /// extent along `y` that overlap along `x` and of which neither holds the
    /// other: where `new` reaches to the right of `self`, the band from the
    /// right side of `self` to the right side of `new`; else the band from
    /// the left side of `new` to the left side of `self`.
    pub open spec fn band_along_x(self, new: Window) -> Window {
        if new.x2 > self.x2 {
            Window { x1: self.x2, y1: new.y1, x2: new.x2, y2: new.y2 }
        } else {
            Window { x1: new.x1, y1: new.y1, x2: self.x1, y2: new.y2 }
        }
    }

    /// The two windows are distinct, overlap, and neither holds the other.
    pub open spec fn overlaps_partly(self, new: Window) -> bool {
        self != new && !self.apart(new) && !self.within(new) && !new.within(self)
    }

    /// `new` reaches beyond `self` to the right and upwards, and its lower
    /// left corner is inside `self`.
    pub open spec fn overlaps_upper_right(self, new: Window) -> bool {
        self.x1 < new.x1 < self.x2 < new.x2 && self.y1 < new.y1 < self.y2 < new.y2
    }

    /// `new` reaches beyond `self` to the right and downwards, and its upper
    /// left corner is inside `self`.
    pub open spec fn overlaps_lower_right(self, new: Window) -> bool {
        self.x1 < new.x1 < self.x2 < new.x2 && new.y1 < self.y1 < new.y2 < self.y2
    }

    /// `new` reaches beyond `self` to the left and upwards, and its lower
    /// right corner is inside `self`.
    pub open spec fn overlaps_upper_left(self, new: Window) -> bool {
        new.x1 < self.x1 < new.x2 < self.x2 && self.y1 < new.y1 < self.y2 < new.y2
    }

    /// `new` reaches beyond `self` to the left and downwards, and its upper
    /// right corner is inside `self`.
    pub open spec fn overlaps_lower_left(self, new: Window) -> bool {
        new.x1 < self.x1 < new.x2 < self.x2 && new.y1 < self.y1 < new.y2 < self.y2
    }

    /// Exactly one corner of `new` lies strictly inside `self`.
    pub open spec fn overlaps_at_corner(self, new: Window) -> bool {
        ||| self.overlaps_upper_right(new)
        ||| self.overlaps_lower_right(new)
        ||| self.overlaps_upper_left(new)
        ||| self.overlaps_lower_left(new)
    }

    /// The six-vertex outline for a `new` window that neither equals `self`,
    /// nor lies apart from it, nor shares an extent with it. Which outline
    /// is taken goes by how the lower corner of `new` lies to the lower
    /// corner of `self`; each runs clockwise.
    pub open spec fn outline(self, new: Window) -> Polygon {
        if new.x1 > self.x1 && new.y1 > self.y1 {
            Polygon {
                p1: Point { x: new.x1, y: new.y2 },
                p2: Point { x: new.x2, y: new.y2 },
                p3: Point { x: new.x2, y: new.y1 },
                p4: Point { x: self.x2, y: new.y1 },
                p5: Point { x: self.x2, y: self.y2 },
                p6: Point { x: new.x1, y: self.y2 },
            }
        } else if new.x1 > self.x1 && new.y1 < self.y1 {
            Polygon {
                p1: Point { x: new.x1, y: new.y1 },
                p2: Point { x: new.x1, y: self.y1 },
                p3: Point { x: self.x2, y: self.y1 },
                p4: Point { x: self.x2, y: new.y2 },
                p5: Point { x: new.x2, y: new.y2 },
                p6: Point { x: new.x2, y: new.y1 },
            }
        } else if new.x1 < self.x1 && new.y1 > self.y1 {
            Polygon {
                p1: Point { x: new.x1, y: new.y1 },
                p2: Point { x: new.x1, y: new.y2 },
                p3: Point { x: new.x2, y: new.y2 },
                p4: Point { x: new.x2, y: self.y2 },
                p5: Point { x: self.x1, y: self.y2 },
                p6: Point { x: self.x1, y: new.y1 },
            }
        } else {
            Polygon {
                p1: Point { x: new.x1, y: new.y1 },
                p2: Point { x: new.x1, y: new.y2 },
                p3: Point { x: self.x1, y: new.y2 },
                p4: Point { x: self.x1, y: self.y1 },
                p5: Point { x: new.x2, y: self.y1 },
                p6: Point { x: new.x2, y: new.y1 },
            }
        }
    }

    /// The area to fetch when the view moves from `self` to `new`: nothing
    /// when the view did not move; the whole of `new` when the two lie apart
    /// or one lies within the other; the band of `new` beyond `self` when
    /// they share one extent; an outline of six vertices otherwise.
    pub open spec fn unseen(self, new: Window) -> Option<Shape> {
        if self == new {
            None
        } else if self.apart(new) || self.within(new) || new.within(self) {
            Some(Shape::Window(new))
        } else if self.x1 == new.x1 && self.x2 == new.x2 {
            Some(Shape::Window(self.band_along_y(new)))
        } else if self.y1 == new.y1 && self.y2 == new.y2 {
            Some(Shape::Window(self.band_along_x(new)))
        } else {
            Some(Shape::Polygon(self.outline(new)))
        }
    }

    /// Whether the point lies in the window, sides included.
    pub fn contains(&self, x: i32, y: i32) -> (inside: bool)
        ensures
            inside == self.covers(x as int, y as int),
    {
        x >= self.x1 && x <= self.x2 && y >= self.y1 && y <= self.y2
    }

    /// Whether the window has an inside.
    pub fn is_valid(&self) -> (valid: bool)
        ensures
            valid == self.is_nonempty(),
    {
        self.x2 > self.x1 && self.y2 > self.y1
    }

    /// Whether [`Window::clamp`] can be called: whether the widened corners
    /// are coordinates again.
    pub fn fits_clamp(&self) -> (fits: bool)
        ensures
            fits == self.can_clamp(),
    {
        let (x1, x2) = widen(self.x1, self.x2, MAX_WIDTH);
        let (y1, y2) = widen(self.y1, self.y2, MAX_HEIGHT);
        x1 >= i32::MIN as i64 && x2 <= i32::MAX as i64 && y1 >= i32::MIN as i64 && y2
            <= i32::MAX as i64
    }

    /// Widens a view that is larger than the expected size: an extent over
    /// its cap grows by half of the excess at each end, so the centre stays.
    /// The result is never smaller than the window.
    pub fn clamp(self) -> (out: Window)
        requires
            self.can_clamp(),
        ensures
            out == self.clamped(),
            (out.x1 as int, out.y1 as int, out.x2 as int, out.y2 as int) == self.widened_corners(),
            out.width() >= self.width(),
            out.height() >= self.height(),
            self.width() <= MAX_WIDTH && self.height() <= MAX_HEIGHT ==> out == self,
    {
        let (x1, x2) = widen(self.x1, self.x2, MAX_WIDTH);
        let (y1, y2) = widen(self.y1, self.y2, MAX_HEIGHT);
        Window { x1: x1 as i32, y1: y1 as i32, x2: x2 as i32, y2: y2 as i32 }
    }

    /// The area that `other` shows and `self` may not have shown, or `None`
    /// when the two are the same window.
    pub fn difference(&self, other: &Window) -> (area: Option<Shape>)
        ensures
            area == self.unseen(*other),
    {
        if self.x1 == other.x1 && self.x2 == other.x2 && self.y1 == other.y1 && self.y2
            == other.y2 {
            return None;
        }
        if self.x2 <= other.x1 || self.x1 >= other.x2 || self.y2 <= other.y1 || self.y1
            >= other.y2 {
            return Some(Shape::Window(*other));
        }
        if other.x1 <= self.x1 && other.x2 >= self.x2 && other.y1 <= self.y1 && other.y2
            >= self.y2 {
            return Some(Shape::Window(*other));
        }
        if self.x1 <= other.x1 && self.x2 >= other.x2 && self.y1 <= other.y1 && self.y2
            >= other.y2 {
            return Some(Shape::Window(*other));
        }
        if self.x1 == other.x1 && self.x2 == other.x2 {
            return Some(
                Shape::Window(
                    if other.y2 > self.y2 {
                        Window { x1: other.x1, y1: self.y2, x2: other.x2, y2: other.y2 }
                    } else {
                        Window { x1: other.x1, y1: other.y1, x2: other.x2, y2: self.y1 }
                    },
                ),
            );
        }
        if self.y1 == other.y1 && self.y2 == other.y2 {
            return Some(
                Shape::Window(
                    if other.x2 > self.x2 {
                        Window { x1: self.x2, y1: other.y1, x2: other.x2, y2: other.y2 }
                    } else {
                        Window { x1: other.x1, y1: other.y1, x2: self.x1, y2: other.y2 }
                    },
                ),
            );
        }
        if other.x1 > self.x1 && other.y1 > self.y1 {
            Some(
                Shape::Polygon(
                    Polygon {
                        p1: Point { x: other.x1, y: other.y2 },
                        p2: Point { x: other.x2, y: other.y2 },
                        p3: Point { x: other.x2, y: other.y1 },
                        p4: Point { x: self.x2, y: other.y1 },
                        p5: Point { x: self.x2, y: self.y2 },
                        p6: Point { x: other.x1, y: self.y2 },
                    },
                ),
            )
        } else if other.x1 > self.x1 && other.y1 < self.y1 {
            Some(
                Shape::Polygon(
                    Polygon {
                        p1: Point { x: other.x1, y: other.y1 },
                        p2: Point { x: other.x1, y: self.y1 },
                        p3: Point { x: self.x2, y: self.y1 },
                        p4: Point { x: self.x2, y: other.y2 },
                        p5: Point { x: other.x2, y: other.y2 },
                        p6: Point { x: other.x2, y: other.y1 },
                    },
                ),
            )
        } else if other.x1 < self.x1 && other.y1 > self.y1 {
            Some(
                Shape::Polygon(
                    Polygon {
                        p1: Point { x: other.x1, y: other.y1 },
                        p2: Point { x: other.x1, y: other.y2 },
                        p3: Point { x: other.x2, y: other.y2 },
                        p4: Point { x: other.x2, y: self.y2 },
                        p5: Point { x: self.x1, y: self.y2 },
                        p6: Point { x: self.x1, y: other.y1 },
                    },
                ),
            )
        } else {
            Some(
                Shape::Polygon(
                    Polygon {
                        p1: Point { x: other.x1, y: other.y1 },
                        p2: Point { x: other.x1, y: other.y2 },
                        p3: Point { x: self.x1, y: other.y2 },
                        p4: Point { x: self.x1, y: self.y1 },
                        p5: Point { x: other.x2, y: self.y1 },
                        p6: Point { x: other.x2, y: other.y1 },
                    },
                ),
            )
        }
    }
}

impl Default for Window {
    /// The window of a session that has not set one yet: the single point at
    /// the origin, which is not a valid window.
    fn default() -> (w: Window)
        ensures
            w == (Window { x1: 0, y1: 0, x2: 0, y2: 0 }),
    {
        Window { x1: 0, y1: 0, x2: 0, y2: 0 }
    }
}

/// Widens one extent, in 64 bits so that no step leaves the integer range.
fn widen(lo: i32, hi: i32, cap: i32) -> (ends: (i64, i64))
    requires
        cap >= 0,
    ensures
        (ends.0 as int, ends.1 as int) == widened(lo as int, hi as int, cap as int),
{
    let extent: i64 = hi as i64 - lo as i64;
    if extent > cap as i64 {
        let half: i64 = (extent - cap as i64) / 2;
        (lo as i64 - half, hi as i64 + half)
    } else {
        (lo as i64, hi as i64)
    }
}


/// A view that did not move leaves nothing to fetch.
pub proof fn lemma_same_window_unseen(w: Window)
    ensures
        w.unseen(w) is None,
{
}

/// Only a view that did not move leaves nothing to fetch.
pub proof fn lemma_unseen_none(old: Window, new: Window)
    ensures
        old.unseen(new) is None <==> old == new,
{
}

/// Two distinct windows that lie apart: the whole new window is fetched.
pub proof fn lemma_apart_unseen(old: Window, new: Window)
    requires
        old.apart(new),
        old != new,
    ensures
        old.unseen(new) == Some(Shape::Window(new)),
{
}

/// Two windows that lie apart are distinct as soon as one of them is valid,
/// so for these the whole new window is fetched.
pub proof fn lemma_apart_valid_unseen(old: Window, new: Window)
    requires
        old.apart(new),
        old.is_nonempty() || new.is_nonempty(),
    ensures
        old != new,
        old.unseen(new) == Some(Shape::Window(new)),
{
}

/// Two distinct windows of which one lies within the other: the whole new
/// window is fetched, also where it shows less than the old one.
pub proof fn lemma_nested_unseen(old: Window, new: Window)
    requires
        old.within(new) || new.within(old),
        old != new,
    ensures
        old.unseen(new) == Some(Shape::Window(new)),
{
}

/// Two windows with the same extent along `x` and different extents along
/// `y`: a window is fetched that has the shared extent along `x` and lies
/// within the new window.
pub proof fn lemma_shared_x_unseen(old: Window, new: Window)
    requires
        old.x1 == new.x1 && old.x2 == new.x2,
        old.y1 != new.y1 || old.y2 != new.y2,
    ensures
        old.unseen(new) matches Some(Shape::Window(band)) && band.x1 == new.x1 && band.x2
            == new.x2 && band.within(new),
{
}

/// Two windows with the same extent along `y` and different extents along
/// `x`: a window is fetched that has the shared extent along `y` and lies
/// within the new window.
pub proof fn lemma_shared_y_unseen(old: Window, new: Window)
    requires
        old.y1 == new.y1 && old.y2 == new.y2,
        old.x1 != new.x1 || old.x2 != new.x2,
    ensures
        old.unseen(new) matches Some(Shape::Window(band)) && band.y1 == new.y1 && band.y2
            == new.y2 && band.within(new),
{
}

/// Two windows with the same extent along `x` that overlap in part: the
/// band from the upper side of the old window to the upper side of the new
/// one is fetched where the new one reaches above, the band from the lower
/// side of the new window to the lower side of the old one where it reaches
/// below. The band is the new window without the old one: it holds a point
/// if and only if the new window holds it and the old one does not.
pub proof fn lemma_band_along_y_exact(old: Window, new: Window, x: int, y: int)
    requires
        old.x1 == new.x1 && old.x2 == new.x2,
        old.overlaps_partly(new),
    ensures
        old.unseen(new) == Some(Shape::Window(old.band_along_y(new))),
        new.y2 > old.y2 ==> old.band_along_y(new) == (Window {
            x1: new.x1,
            y1: old.y2,
            x2: new.x2,
            y2: new.y2,
        }),
        new.y2 <= old.y2 ==> old.band_along_y(new) == (Window {
            x1: new.x1,
            y1: new.y1,
            x2: new.x2,
            y2: old.y1,
        }),
        old.band_along_y(new).is_nonempty(),
        old.band_along_y(new).holds(x, y) <==> new.holds(x, y) && !old.holds(x, y),
{
}

/// Two windows with the same extent along `y` that overlap in part: the
/// band from the right side of the old window to the right side of the new
/// one is fetched where the new one reaches to the right, the band from the
/// left side of the new window to the left side of the old one where it
/// reaches to the left. The band is the new window without the old one: it
/// holds a point if and only if the new window holds it and the old one
/// does not.
pub proof fn lemma_band_along_x_exact(old: Window, new: Window, x: int, y: int)
    requires
        old.y1 == new.y1 && old.y2 == new.y2,
        old.overlaps_partly(new),
    ensures
        old.unseen(new) == Some(Shape::Window(old.band_along_x(new))),
        new.x2 > old.x2 ==> old.band_along_x(new) == (Window {
            x1: old.x2,
            y1: new.y1,
            x2: new.x2,
            y2: new.y2,
        }),
        new.x2 <= old.x2 ==> old.band_along_x(new) == (Window {
            x1: new.x1,
            y1: new.y1,
            x2: old.x1,
            y2: new.y2,
        }),
        old.band_along_x(new).is_nonempty(),
        old.band_along_x(new).holds(x, y) <==> new.holds(x, y) && !old.holds(x, y),
{
}

/// A fetched window lies within the new window: nothing is fetched that the
/// client does not look at.
pub proof fn lemma_window_within_new(old: Window, new: Window)
    ensures
        old.unseen(new) matches Some(Shape::Window(w)) ==> w.within(new),
{
}

/// A fetched window misses nothing: it holds every point that the new
/// window shows and the old one does not. Where one of the two windows
/// lies within the other it holds more, the whole new window.
pub proof fn lemma_window_covers_unseen(old: Window, new: Window)
    ensures
        old.unseen(new) matches Some(shape) ==> shape.window_covers_unseen(old, new),
{
}

/// Widening never shrinks: the widened extents are at least the extents of
/// the window and hold them, the centre of each extent stays where it is,
/// and an extent within its cap stays as it is.
pub proof fn lemma_widened_grows(w: Window)
    ensures
        ({
            let (x1, y1, x2, y2) = w.widened_corners();
            &&& x2 - x1 >= w.width()
            &&& y2 - y1 >= w.height()
            &&& x1 <= w.x1 && w.x2 <= x2
            &&& y1 <= w.y1 && w.y2 <= y2
            &&& x1 + x2 == w.x1 + w.x2
            &&& y1 + y2 == w.y1 + w.y2
            &&& (w.width() <= MAX_WIDTH ==> x1 == w.x1 && x2 == w.x2)
            &&& (w.height() <= MAX_HEIGHT ==> y1 == w.y1 && y2 == w.y2)
        }),
{
}

/// Every outline is rectilinear, whatever the two windows.
pub proof fn lemma_outline_rectilinear(old: Window, new: Window)
    ensures
        old.outline(new).is_rectilinear(),
{
}

/// Where exactly one corner of the new window lies inside the old one, an
/// outline is fetched, and it is the new window without the old one: a
/// point is inside the outline if and only if the new window holds it and
/// the old one does not.
pub proof fn lemma_corner_outline_exact(old: Window, new: Window, x: int, y: int)
    requires
        old.overlaps_at_corner(new),
    ensures
        old.unseen(new) == Some(Shape::Polygon(old.outline(new))),
        old.outline(new).encloses(x, y) <==> new.holds(x, y) && !old.holds(x, y),
{
}

/// Where exactly one corner of the new window lies inside the old one, every
/// vertex of the outline lies on a side of one of the two windows, none lies
/// strictly inside the old window and none outside the new one.
pub proof fn lemma_corner_outline_vertices(old: Window, new: Window, p: Point)
    requires
        old.overlaps_at_corner(new),
        old.outline(new).has_vertex(p),
    ensures
        p.on_border(new) || p.on_border(old),
        new.covers(p.x as int, p.y as int),
        !(old.x1 < p.x < old.x2 && old.y1 < p.y < old.y2),
{
}

} // verus!
