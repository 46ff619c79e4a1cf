//! The sizing protocol: what a widget reports when asked how much room it
//! needs, and the errors that layout and rendering can raise.

use vstd::prelude::*;
use crate::geometry::Size;

verus! {

/// How a flexible child takes its share of leftover space.
#[derive(Debug, Clone, Copy, PartialEq, Eq, Structural)]
pub enum FlexFit {
    /// The child takes its full proportional share, even beyond its maximum.
    Tight,
    /// The child takes leftover space only up to its maximum.
    Loose,
}

/// Why a layout could not be computed.
#[derive(Debug, Clone, Copy, PartialEq, Eq, Structural)]
pub enum LayoutError {
    /// The available space is smaller than the declared minimum.
    InsufficientSpace,
    Unknown,
}

impl LayoutError {
    /// Human-readable description of the error.
    pub fn message(&self) -> (r: &'static str)
        ensures
            r@ == match *self {
                LayoutError::InsufficientSpace => "Layout error: insufficient space"@,
                LayoutError::Unknown => "Layout error: unknown"@,
            },
    {
        match self {
            LayoutError::InsufficientSpace => "Layout error: insufficient space",
            LayoutError::Unknown => "Layout error: unknown",
        }
    }
}

/// Why a render pass could not paint a widget.
#[derive(Debug, Clone, Copy, PartialEq, Eq, Structural)]
pub enum RenderError {
    Layout(LayoutError),
}

impl RenderError {
    /// The layout error that stopped the render.
    pub fn layout_error(&self) -> (r: LayoutError)
        ensures
            *self == RenderError::Layout(r),
    {
        match self {
            RenderError::Layout(e) => *e,
        }
    }

    /// Human-readable description of the error.
    pub fn message(&self) -> (r: &'static str)
        ensures
            r@ == match *self {
                RenderError::Layout(LayoutError::InsufficientSpace) =>
                    "Render error -> Layout error: insufficient space"@,
                RenderError::Layout(LayoutError::Unknown) => "Render error -> Layout error: unknown"@,
            },
    {
        match self {
            RenderError::Layout(LayoutError::InsufficientSpace) => {
                "Render error -> Layout error: insufficient space"
            },
            RenderError::Layout(LayoutError::Unknown) => "Render error -> Layout error: unknown",
        }
    }
}

/// The sizing range a widget reports for a given available space.
#[derive(Debug, Clone, Copy, PartialEq, Eq, Structural)]
pub struct LayoutSize {
    /// Smallest size the widget can be painted in.
    pub min: Size,
    /// Largest size the widget can make use of.
    pub max: Size,
    /// Weight of the widget's share of leftover space; zero means it never grows.
    pub flex: usize,
    /// How the share is applied.
    pub fit: FlexFit,
}

pub type LayoutResult = Result<LayoutSize, LayoutError>;

pub type RenderResult = Result<(), RenderError>;

impl LayoutSize {
    /// A non-flexible range: weight zero, tight fit.
    pub fn min_max(min: Size, max: Size) -> (r: Self)
        ensures
            r == (LayoutSize { min, max, flex: 0, fit: FlexFit::Tight }),
    {
        LayoutSize { min, max, flex: 0, fit: FlexFit::Tight }
    }

    pub fn min(self, min: Size) -> (r: Self)
        ensures
            r == (LayoutSize { min, ..self }),
    {
        LayoutSize { min, max: self.max, flex: self.flex, fit: self.fit }
    }

    pub fn max(self, max: Size) -> (r: Self)
        ensures
            r == (LayoutSize { max, ..self }),
    {
        LayoutSize { min: self.min, max, flex: self.flex, fit: self.fit }
    }

    pub fn flex(self, flex: usize) -> (r: Self)
        ensures
            r == (LayoutSize { flex, ..self }),
    {
        LayoutSize { min: self.min, max: self.max, flex, fit: self.fit }
    }

    pub fn fit(self, fit: FlexFit) -> (r: Self)
        ensures
            r == (LayoutSize { fit, ..self }),
    {
        LayoutSize { min: self.min, max: self.max, flex: self.flex, fit }
    }

    /// The range respects the protocol for `available`: on both axes
    /// `min <= max <= available`.
    pub open spec fn within(self, available: Size) -> bool {
        self.max.fits(self.min) && available.fits(self.max)
    }

    /// The size a non-growing parent reserves for the widget: its maximum
    /// when it does not flex, its minimum when it does.
    pub open spec fn fixed(self) -> Size {
        if self.flex == 0 { self.max } else { self.min }
    }

    /// See [`LayoutSize::fixed`].
    pub fn fixed_size(&self) -> (r: Size)
        ensures
            r == self.fixed(),
    {
        if self.flex == 0 { self.max } else { self.min }
    }
}

impl Default for LayoutSize {
    /// The empty range: zero sizes, weight zero, loose fit.
    fn default() -> (r: Self)
        ensures
            r == (LayoutSize {
                min: Size { width: 0, height: 0 },
                max: Size { width: 0, height: 0 },
                flex: 0,
                fit: FlexFit::Loose,
            }),
    {
        LayoutSize { min: Size::zero(), max: Size::zero(), flex: 0, fit: FlexFit::Loose }
    }
}

/// A lower and an upper bound of the same kind.
#[derive(Debug)]
pub struct MinMax<T> {
    pub min: T,
    pub max: T,
}

impl<T> MinMax<T> {
    pub fn new(min: T, max: T) -> (r: Self)
        ensures
            r.min == min,
            r.max == max,
    {
        MinMax { min, max }
    }
}

impl Default for MinMax<usize> {
    fn default() -> (r: Self)
        ensures
            r.min == 0,
            r.max == 0,
    {
        MinMax { min: 0, max: 0 }
    }
}

} // verus!
