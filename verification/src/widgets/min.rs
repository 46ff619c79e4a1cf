//! A child with a minimum size of the user's choosing.

use vstd::prelude::*;
use crate::geometry::Size;
use crate::layout::{FlexFit, LayoutError, LayoutResult, LayoutSize, RenderError, RenderResult};
use crate::render::RenderCtx;
use crate::widgets::{AnyEvent, Capability, EventResult, Widget};

verus! {

/// The range of a child whose minimum is replaced by `min`. A child that has
/// not enough space still leaves a widget of exactly the size `min`.
pub open spec fn min_layout(min: Size, inner: LayoutResult, available: Size) -> LayoutResult {
    if !available.fits(min) {
        Err(LayoutError::InsufficientSpace)
    } else {
        match inner {
            Ok(layout) => Ok(
                LayoutSize { min, max: layout.max.join(min), flex: layout.flex, fit: layout.fit },
            ),
            Err(LayoutError::InsufficientSpace) => Ok(
                LayoutSize { min, max: min, flex: 0, fit: FlexFit::Tight },
            ),
            Err(e) => Err(e),
        }
    }
}

/// See [`min_layout`].
pub fn layout_with_min<Child: Widget>(min: Size, child: &Child, avail_size: &Size) -> (r:
    LayoutResult)
    ensures
        r == min_layout(min, child.layout_spec(*avail_size), *avail_size),
{
    if !avail_size.contains(min) {
        return Err(LayoutError::InsufficientSpace);
    }
    match child.layout(avail_size) {
        Ok(layout) => Ok(
            LayoutSize { min, max: layout.max.max(min), flex: layout.flex, fit: layout.fit },
        ),
        Err(LayoutError::InsufficientSpace) => Ok(LayoutSize::min_max(min, min)),
        Err(e) => Err(e),
    }
}

/// Replaces the minimum size of its child. A child that has not enough space
/// in the frame is left out rather than reported as an error.
pub struct Min<Child> {
    min: Size,
    child: Child,
}

impl<Child> Min<Child> {
    /// The minimum that the widget reports.
    pub closed spec fn least(&self) -> Size {
        self.min
    }

    /// The child.
    pub closed spec fn inner(&self) -> Child {
        self.child
    }

    /// The same minimum for `child`.
    pub fn child<C: Widget>(self, child: C) -> (r: Min<C>)
        ensures
            r.least() == self.least(),
            r.inner() == child,
    {
        Min { min: self.min, child }
    }
}

impl Min<()> {
    /// A minimum of no cells, for a child to be named.
    pub fn zero() -> (r: Self)
        ensures
            r.least() == (Size { width: 0, height: 0 }),
    {
        Min { min: Size::zero(), child: () }
    }

    /// A minimum of `min`, for a child to be named.
    pub fn min(min: Size) -> (r: Self)
        ensures
            r.least() == min,
    {
        Min { min, child: () }
    }
}

impl<Child: Widget> Widget for Min<Child> {
    open spec fn layout_spec(&self, available: Size) -> LayoutResult {
        min_layout(self.least(), self.inner().layout_spec(available), available)
    }

    open spec fn event_spec(&self, event: AnyEvent, size: Size) -> EventResult {
        self.inner().event_spec(event, size)
    }

    open spec fn capability_spec(&self, capability: &Capability) -> bool {
        self.inner().capability_spec(capability)
    }

    /// Renders the child into the frame. An empty frame is left alone. A
    /// frame smaller than the minimum is not enough space. A child that has
    /// not enough space in the frame is not painted, which is no error.
    open spec fn render_spec(
        &self,
        before: RenderCtx,
        after: RenderCtx,
        r: RenderResult,
    ) -> bool {
        &&& before.frame().size.empty() ==> r is Ok && after.canvas() == before.canvas()
        &&& !before.frame().size.empty() && !before.frame().size.fits(self.least()) ==> r
            == Err::<(), RenderError>(RenderError::Layout(LayoutError::InsufficientSpace))
            && after.canvas() == before.canvas()
        &&& !before.frame().size.empty() && before.frame().size.fits(self.least()) ==> (
        match self.inner().layout_spec(before.frame().size) {
            Err(LayoutError::InsufficientSpace) => r is Ok && after.canvas() == before.canvas(),
            Err(e) => r == Err::<(), RenderError>(RenderError::Layout(e)) && after.canvas()
                == before.canvas(),
            Ok(_) => after.rendered(&before, before.frame(), &self.inner(), r),
        })
        &&& after.placed() == if !before.frame().size.empty() && before.frame().size.fits(
            self.least(),
        ) && self.inner().layout_spec(before.frame().size) is Ok {
            before.placed().push(before.frame())
        } else {
            before.placed()
        }
    }

    proof fn lemma_layout_within(&self, available: Size) {
        self.inner().lemma_layout_within(available);
    }

    fn event(&mut self, event: &AnyEvent, size: &Size) -> (r: EventResult)
        ensures
            final(self).least() == old(self).least(),
    {
        self.child.event(event, size)
    }

    fn layout(&self, avail_size: &Size) -> (r: LayoutResult) {
        layout_with_min(self.min, &self.child, avail_size)
    }

    fn render(&self, ctx: &mut RenderCtx) -> (r: RenderResult) {
        let frame = ctx.get_frame();
        if frame.size.is_empty() {
            return Ok(());
        }
        if !frame.size.contains(self.min) {
            return Err(RenderError::Layout(LayoutError::InsufficientSpace));
        }
        match self.child.layout(&frame.size) {
            Err(LayoutError::InsufficientSpace) => Ok(()),
            Err(e) => Err(RenderError::Layout(e)),
            Ok(_) => ctx.render_child(frame, &self.child),
        }
    }

    fn has_capability(&self, capability: &Capability) -> (r: bool) {
        self.child.has_capability(capability)
    }
}

} // verus!
