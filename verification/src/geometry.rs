//! Cell-grid geometry: sizes, points, side offsets and rectangles.
//!
//! Every quantity is a non-negative count of terminal cells. Operations that
//! shrink a shape saturate at zero, so no combination of inputs can underflow.

use vstd::prelude::*;

verus! {

/// The smaller of two cell counts.
pub open spec fn min_int(a: int, b: int) -> int {
    if a <= b { a } else { b }
}

/// The larger of two cell counts.
pub open spec fn max_int(a: int, b: int) -> int {
    if a >= b { a } else { b }
}

/// A cell count clamped into the machine range.
pub open spec fn clamp_usize(a: int) -> usize {
    if a < 0 {
        0usize
    } else if a > usize::MAX {
        usize::MAX
    } else {
        a as usize
    }
}

/// The smaller of two counts.
pub fn min_usize(a: usize, b: usize) -> (r: usize)
    ensures
        r == min_int(a as int, b as int),
{
    if a <= b { a } else { b }
}

/// The larger of two counts.
pub fn max_usize(a: usize, b: usize) -> (r: usize)
    ensures
        r == max_int(a as int, b as int),
{
    if a >= b { a } else { b }
}

/// `a - b`, or zero where `b` exceeds `a`.
pub fn sub_or_zero(a: usize, b: usize) -> (r: usize)
    ensures
        r == max_int(a - b, 0),
{
    if a >= b { a - b } else { 0 }
}

/// `a + b`, or the largest count where the sum does not fit.
pub fn add_or_max(a: usize, b: usize) -> (r: usize)
    ensures
        r == clamp_usize(a + b),
{
    if a <= usize::MAX - b { a + b } else { usize::MAX }
}

/// A width and a height, in cells.
#[derive(Clone, Copy, Debug, PartialEq, Eq, Structural)]
pub struct Size {
    pub width: usize,
    pub height: usize,
}

impl Size {
    pub fn new(width: usize, height: usize) -> (r: Self)
        ensures
            r == (Size { width, height }),
    {
        Size { width, height }
    }

    /// The size with no cells at all.
    pub fn zero() -> (r: Self)
        ensures
            r == (Size { width: 0, height: 0 }),
    {
        Size { width: 0, height: 0 }
    }

    /// Number of cells covered.
    pub open spec fn area(self) -> int {
        self.width * self.height
    }

    /// A size is empty when it covers no cell.
    pub open spec fn empty(self) -> bool {
        self.width == 0 || self.height == 0
    }

    /// `other` fits inside `self` on both axes.
    pub open spec fn fits(self, other: Size) -> bool {
        other.width <= self.width && other.height <= self.height
    }

    pub fn is_empty(&self) -> (r: bool)
        ensures
            r == self.empty(),
    {
        self.width == 0 || self.height == 0
    }

    /// Whether a shape of size `other` fits inside this size.
    pub fn contains(&self, other: Size) -> (r: bool)
        ensures
            r == self.fits(other),
    {
        other.width <= self.width && other.height <= self.height
    }

    /// Both axes reduced by `other`, each saturating at zero.
    pub open spec fn minus(self, other: Size) -> Size {
        Size {
            width: max_int(self.width - other.width, 0) as usize,
            height: max_int(self.height - other.height, 0) as usize,
        }
    }

    /// Both axes enlarged by `other`, each saturating at the largest count.
    pub open spec fn plus(self, other: Size) -> Size {
        Size {
            width: clamp_usize(self.width + other.width),
            height: clamp_usize(self.height + other.height),
        }
    }

    /// Per-axis minimum of two sizes.
    pub open spec fn meet(self, other: Size) -> Size {
        Size {
            width: min_int(self.width as int, other.width as int) as usize,
            height: min_int(self.height as int, other.height as int) as usize,
        }
    }

    /// Per-axis maximum of two sizes.
    pub open spec fn join(self, other: Size) -> Size {
        Size {
            width: max_int(self.width as int, other.width as int) as usize,
            height: max_int(self.height as int, other.height as int) as usize,
        }
    }

    pub fn saturating_sub(&self, other: Size) -> (r: Size)
        ensures
            r == self.minus(other),
    {
        Size {
            width: sub_or_zero(self.width, other.width),
            height: sub_or_zero(self.height, other.height),
        }
    }

    pub fn saturating_add(&self, other: Size) -> (r: Size)
        ensures
            r == self.plus(other),
    {
        Size {
            width: add_or_max(self.width, other.width),
            height: add_or_max(self.height, other.height),
        }
    }

    pub fn min(&self, other: Size) -> (r: Size)
        ensures
            r == self.meet(other),
    {
        Size {
            width: min_usize(self.width, other.width),
            height: min_usize(self.height, other.height),
        }
    }

    pub fn max(&self, other: Size) -> (r: Size)
        ensures
            r == self.join(other),
    {
        Size {
            width: max_usize(self.width, other.width),
            height: max_usize(self.height, other.height),
        }
    }
}

/// A cell position: column `x`, row `y`.
#[derive(Clone, Copy, Debug, PartialEq, Eq, Structural)]
pub struct Point {
    pub x: usize,
    pub y: usize,
}

impl Point {
    pub fn new(x: usize, y: usize) -> (r: Self)
        ensures
            r == (Point { x, y }),
    {
        Point { x, y }
    }

    pub fn zero() -> (r: Self)
        ensures
            r == (Point { x: 0, y: 0 }),
    {
        Point { x: 0, y: 0 }
    }
}

/// Distances to take off each side of a rectangle.
#[derive(Clone, Copy, Debug, PartialEq, Eq, Structural)]
pub struct SideOffsets {
    pub top: usize,
    pub right: usize,
    pub bottom: usize,
    pub left: usize,
}

impl SideOffsets {
    pub fn new(top: usize, right: usize, bottom: usize, left: usize) -> (r: Self)
        ensures
            r == (SideOffsets { top, right, bottom, left }),
    {
        SideOffsets { top, right, bottom, left }
    }

    pub fn zero() -> (r: Self)
        ensures
            r == (SideOffsets { top: 0, right: 0, bottom: 0, left: 0 }),
    {
        SideOffsets { top: 0, right: 0, bottom: 0, left: 0 }
    }

    pub fn new_all_same(all: usize) -> (r: Self)
        ensures
            r == (SideOffsets { top: all, right: all, bottom: all, left: all }),
    {
        SideOffsets { top: all, right: all, bottom: all, left: all }
    }

    /// Total taken off the horizontal axis.
    pub open spec fn horizontal(self) -> int {
        self.left + self.right
    }

    /// Total taken off the vertical axis.
    pub open spec fn vertical(self) -> int {
        self.top + self.bottom
    }

    /// The space the offsets occupy, clamped to the machine range.
    pub open spec fn extent(self) -> Size {
        Size { width: clamp_usize(self.horizontal()), height: clamp_usize(self.vertical()) }
    }

    /// Width and height that the offsets take up together.
    pub fn size(&self) -> (r: Size)
        ensures
            r == self.extent(),
    {
        Size {
            width: add_or_max(self.left, self.right),
            height: add_or_max(self.top, self.bottom),
        }
    }
}

/// An axis-aligned rectangle of cells: `origin` is its top-left cell.
#[derive(Clone, Copy, Debug, PartialEq, Eq, Structural)]
pub struct Rect {
    pub origin: Point,
    pub size: Size,
}

impl Rect {
    pub fn new(origin: Point, size: Size) -> (r: Self)
        ensures
            r == (Rect { origin, size }),
    {
        Rect { origin, size }
    }

    /// The rectangle of the given size anchored at the top-left corner.
    pub fn from_size(size: Size) -> (r: Self)
        ensures
            r == (Rect { origin: Point { x: 0, y: 0 }, size }),
    {
        Rect { origin: Point { x: 0, y: 0 }, size }
    }

    /// First column right of the rectangle.
    pub open spec fn right(self) -> int {
        self.origin.x + self.size.width
    }

    /// First row below the rectangle.
    pub open spec fn bottom(self) -> int {
        self.origin.y + self.size.height
    }

    /// The rectangle covers no cell.
    pub open spec fn empty(self) -> bool {
        self.size.empty()
    }

    /// The cell at column `x`, row `y` lies inside the rectangle.
    pub open spec fn covers(self, x: int, y: int) -> bool {
        self.origin.x <= x < self.right() && self.origin.y <= y < self.bottom()
    }

    /// Every cell of `other` lies inside this rectangle.
    pub open spec fn encloses(self, other: Rect) -> bool {
        other.empty() || (self.origin.x <= other.origin.x && other.right() <= self.right()
            && self.origin.y <= other.origin.y && other.bottom() <= self.bottom())
    }

    /// The two rectangles share at least one cell.
    pub open spec fn overlaps(self, other: Rect) -> bool {
        max_int(self.origin.x as int, other.origin.x as int) < min_int(self.right(), other.right())
            && max_int(self.origin.y as int, other.origin.y as int) < min_int(
            self.bottom(),
            other.bottom(),
        )
    }

    /// The cells shared by both rectangles; only meaningful when they overlap.
    pub open spec fn common(self, other: Rect) -> Rect {
        let x = max_int(self.origin.x as int, other.origin.x as int);
        let y = max_int(self.origin.y as int, other.origin.y as int);
        Rect {
            origin: Point { x: x as usize, y: y as usize },
            size: Size {
                width: (min_int(self.right(), other.right()) - x) as usize,
                height: (min_int(self.bottom(), other.bottom()) - y) as usize,
            },
        }
    }

    /// The rectangle shrunk by `offsets`, clamped so that it never leaves the
    /// rectangle it was cut from and never has a negative extent.
    pub open spec fn shrunk(self, offsets: SideOffsets) -> Rect {
        let left = min_int(offsets.left as int, self.size.width as int);
        let top = min_int(offsets.top as int, self.size.height as int);
        Rect {
            origin: Point {
                x: clamp_usize(self.origin.x + left),
                y: clamp_usize(self.origin.y + top),
            },
            size: Size {
                width: max_int(self.size.width - offsets.left - offsets.right, 0) as usize,
                height: max_int(self.size.height - offsets.top - offsets.bottom, 0) as usize,
            },
        }
    }

    pub fn min_x(&self) -> (r: usize)
        ensures
            r == self.origin.x,
    {
        self.origin.x
    }

    pub fn min_y(&self) -> (r: usize)
        ensures
            r == self.origin.y,
    {
        self.origin.y
    }

    /// First column right of the rectangle, clamped to the machine range.
    pub fn max_x(&self) -> (r: usize)
        ensures
            r == clamp_usize(self.right()),
    {
        add_or_max(self.origin.x, self.size.width)
    }

    /// First row below the rectangle, clamped to the machine range.
    pub fn max_y(&self) -> (r: usize)
        ensures
            r == clamp_usize(self.bottom()),
    {
        add_or_max(self.origin.y, self.size.height)
    }

    pub fn width(&self) -> (r: usize)
        ensures
            r == self.size.width,
    {
        self.size.width
    }

    pub fn height(&self) -> (r: usize)
        ensures
            r == self.size.height,
    {
        self.size.height
    }

    pub fn is_empty(&self) -> (r: bool)
        ensures
            r == self.empty(),
    {
        self.size.is_empty()
    }

    /// Whether the cell at `point` lies inside the rectangle.
    pub fn contains(&self, point: Point) -> (r: bool)
        ensures
            r == self.covers(point.x as int, point.y as int),
    {
        point.x >= self.origin.x && point.x - self.origin.x < self.size.width && point.y
            >= self.origin.y && point.y - self.origin.y < self.size.height
    }

    /// Whether every cell of `other` lies inside the rectangle.
    pub fn contains_rect(&self, other: &Rect) -> (r: bool)
        ensures
            r == self.encloses(*other),
    {
        other.size.is_empty() || (other.origin.x >= self.origin.x && other.origin.x - self.origin.x
            <= self.size.width && other.size.width <= self.size.width - (other.origin.x
            - self.origin.x) && other.origin.y >= self.origin.y && other.origin.y - self.origin.y
            <= self.size.height && other.size.height <= self.size.height - (other.origin.y
            - self.origin.y))
    }

    /// Whether the two rectangles share at least one cell.
    pub fn intersects(&self, other: &Rect) -> (r: bool)
        ensures
            r == self.overlaps(*other),
    {
        self.intersection(other).is_some()
    }

    /// The cells shared by both rectangles, or `None` when they share none.
    pub fn intersection(&self, other: &Rect) -> (r: Option<Rect>)
        ensures
            r == if self.overlaps(*other) {
                Some(self.common(*other))
            } else {
                None::<Rect>
            },
    {
        let x: usize = max_usize(self.origin.x, other.origin.x);
        let y: usize = max_usize(self.origin.y, other.origin.y);
        if x - self.origin.x >= self.size.width || x - other.origin.x >= other.size.width {
            return None;
        }
        if y - self.origin.y >= self.size.height || y - other.origin.y >= other.size.height {
            return None;
        }
        let width: usize = min_usize(
            self.size.width - (x - self.origin.x),
            other.size.width - (x - other.origin.x),
        );
        let height: usize = min_usize(
            self.size.height - (y - self.origin.y),
            other.size.height - (y - other.origin.y),
        );
        Some(Rect { origin: Point { x, y }, size: Size { width, height } })
    }

    /// The rectangle with `offsets` taken off its four sides. Offsets larger
    /// than the rectangle leave a zero-area rectangle inside it.
    pub fn inset(&self, offsets: SideOffsets) -> (r: Rect)
        ensures
            r == self.shrunk(offsets),
    {
        let left: usize = min_usize(offsets.left, self.size.width);
        let top: usize = min_usize(offsets.top, self.size.height);
        Rect {
            origin: Point {
                x: add_or_max(self.origin.x, left),
                y: add_or_max(self.origin.y, top),
            },
            size: Size {
                width: sub_or_zero(sub_or_zero(self.size.width, offsets.left), offsets.right),
                height: sub_or_zero(sub_or_zero(self.size.height, offsets.top), offsets.bottom),
            },
        }
    }

    /// Same as [`Rect::inset`].
    pub fn inner_rect(&self, offsets: SideOffsets) -> (r: Rect)
        ensures
            r == self.shrunk(offsets),
    {
        self.inset(offsets)
    }
}

/// A rectangle cut out of another by intersection or inset stays inside it.
pub proof fn lemma_common_is_enclosed(a: Rect, b: Rect)
    requires
        a.overlaps(b),
    ensures
        a.encloses(a.common(b)),
        b.encloses(a.common(b)),
        !a.common(b).empty(),
        forall|x: int, y: int| a.common(b).covers(x, y) <==> (a.covers(x, y) && b.covers(x, y)),
{
}

/// An inset rectangle covers only cells of the rectangle it was cut from.
pub proof fn lemma_shrunk_is_enclosed(a: Rect, offsets: SideOffsets)
    ensures
        forall|x: int, y: int| a.shrunk(offsets).covers(x, y) ==> a.covers(x, y),
{
}

} // verus!
