//! A child with a minimum size of the user's choosing that is painted even
//! where it has not enough space.

use vstd::prelude::*;
use crate::geometry::{Rect, Size};
use crate::layout::{LayoutError, LayoutResult, RenderError, RenderResult};
use crate::render::RenderCtx;
use crate::widgets::leak::unbounded;
use crate::widgets::min::{layout_with_min, min_layout};
use crate::widgets::{AnyEvent, Capability, EventResult, Widget};

verus! {

/// Replaces the minimum size of its child. A child that has not enough
/// space in the frame is rendered at its natural size and cut off at the
/// frame.
pub struct Minimize<Child> {
    min: Size,
    child: Child,
}

impl<Child> Minimize<Child> {
    /// The minimum that the widget reports.
    pub closed spec fn least(&self) -> Size {
        self.min
    }

    /// The child.
    pub closed spec fn inner(&self) -> Child {
        self.child
    }

    /// The same minimum for `child`.
    pub fn child<C: Widget>(self, child: C) -> (r: Minimize<C>)
        ensures
            r.least() == self.least(),
            r.inner() == child,
    {
        Minimize { min: self.min, child }
    }
}

impl Minimize<()> {
    /// A minimum of no cells, for a child to be named.
    pub fn zero() -> (r: Self)
        ensures
            r.least() == (Size { width: 0, height: 0 }),
    {
        Minimize { min: Size::zero(), child: () }
    }

    /// A minimum of `min`, for a child to be named.
    pub fn min(min: Size) -> (r: Self)
        ensures
            r.least() == min,
    {
        Minimize { min, child: () }
    }
}

impl<Child: Widget> Widget for Minimize<Child> {
    open spec fn layout_spec(&self, available: Size) -> LayoutResult {
        min_layout(self.least(), self.inner().layout_spec(available), available)
    }

    open spec fn event_spec(&self, event: AnyEvent, size: Size) -> EventResult {
        self.inner().event_spec(event, size)
    }

    open spec fn capability_spec(&self, capability: &Capability) -> bool {
        self.inner().capability_spec(capability)
    }

    /// Renders the child into the frame. An empty frame is left alone. A
    /// frame smaller than the minimum is not enough space. A child that has
    /// not enough space in the frame is rendered into a frame of its natural
    /// minimum, of which only the part inside the frame is painted.
    open spec fn render_spec(
        &self,
        before: RenderCtx,
        after: RenderCtx,
        r: RenderResult,
    ) -> bool {
        &&& before.frame().size.empty() ==> {
            &&& r is Ok
            &&& after.canvas() == before.canvas()
            &&& after.placed() == before.placed()
        }
        &&& !before.frame().size.empty() && !before.frame().size.fits(self.least()) ==> {
            &&& r == Err::<(), RenderError>(RenderError::Layout(LayoutError::InsufficientSpace))
            &&& after.canvas() == before.canvas()
            &&& after.placed() == before.placed()
        }
        &&& !before.frame().size.empty() && before.frame().size.fits(self.least()) ==> (
        match self.inner().layout_spec(before.frame().size) {
            Ok(_) => after.rendered(&before, before.frame(), &self.inner(), r),
            Err(LayoutError::InsufficientSpace) => match self.inner().layout_spec(unbounded()) {
                Ok(natural) => after.rendered(
                    &before,
                    Rect {
                        origin: before.frame().origin,
                        size: natural.min.join(before.frame().size),
                    },
                    &self.inner(),
                    r,
                ),
                Err(e) => {
                    &&& r == Err::<(), RenderError>(RenderError::Layout(e))
                    &&& after.canvas() == before.canvas()
                    &&& after.placed() == before.placed()
                },
            },
            Err(e) => {
                &&& r == Err::<(), RenderError>(RenderError::Layout(e))
                &&& after.canvas() == before.canvas()
                &&& after.placed() == before.placed()
            },
        })
    }

    proof fn lemma_layout_within(&self, available: Size) {
        self.inner().lemma_layout_within(available);
    }

    fn event(&mut self, event: &AnyEvent, size: &Size) -> (r: EventResult)
        ensures
            final(self).least() == old(self).least(),
    {
        self.child.event(event, size)
    }

    fn layout(&self, avail_size: &Size) -> (r: LayoutResult) {
        layout_with_min(self.min, &self.child, avail_size)
    }

    fn render(&self, ctx: &mut RenderCtx) -> (r: RenderResult) {
        let frame = ctx.get_frame();
        if frame.size.is_empty() {
            return Ok(());
        }
        if !frame.size.contains(self.min) {
            return Err(RenderError::Layout(LayoutError::InsufficientSpace));
        }
        match self.child.layout(&frame.size) {
            Err(LayoutError::InsufficientSpace) => {
                match self.child.layout(&Size::new(usize::MAX, usize::MAX)) {
                    Ok(layout) => {
                        let size = layout.min.max(frame.size);
                        ctx.render_child(Rect::new(frame.origin, size), &self.child)
                    },
                    Err(e) => Err(RenderError::Layout(e)),
                }
            },
            Err(e) => Err(RenderError::Layout(e)),
            Ok(_) => ctx.render_child(frame, &self.child),
        }
    }

    fn has_capability(&self, capability: &Capability) -> (r: bool) {
        self.child.has_capability(capability)
    }
}

} // verus!
