//! A child that may ask for more than its parent can give.

use vstd::prelude::*;
use crate::geometry::{Rect, Size};
use crate::layout::{LayoutResult, LayoutSize, RenderError, RenderResult};
use crate::render::RenderCtx;
use crate::widgets::{AnyEvent, Capability, EventResult, Widget};

verus! {

/// The largest size there is, offered to a child to learn its natural size.
pub open spec fn unbounded() -> Size {
    Size { width: usize::MAX, height: usize::MAX }
}

/// The range of a leaking child, from the range that the child reports when
/// it is offered unbounded space: at most one cell is asked for as minimum,
/// and the maximum is the child's natural one as far as it is available.
pub open spec fn leak_layout(natural: LayoutResult, available: Size) -> LayoutResult {
    match natural {
        Ok(layout) => Ok(
            LayoutSize {
                min: layout.min.meet(Size { width: 1, height: 1 }).meet(available),
                max: layout.max.meet(available),
                flex: layout.flex,
                fit: layout.fit,
            },
        ),
        Err(e) => Err(e),
    }
}

/// Lets a child be painted, cut off at the frame, where it would otherwise
/// not be painted at all for want of space: towards its parent the child
/// asks for one cell at most, and it is rendered at its natural size.
pub struct Leak<Child> {
    pub child: Child,
}

impl<Child> Leak<Child> {
    pub fn child(child: Child) -> (r: Self)
        ensures
            r.child == child,
    {
        Leak { child }
    }
}

impl<Child: Widget> Widget for Leak<Child> {
    open spec fn layout_spec(&self, available: Size) -> LayoutResult {
        leak_layout(self.child.layout_spec(unbounded()), available)
    }

    open spec fn event_spec(&self, event: AnyEvent, size: Size) -> EventResult {
        self.child.event_spec(event, size)
    }

    open spec fn capability_spec(&self, capability: &Capability) -> bool {
        self.child.capability_spec(capability)
    }

    /// Renders the child into a frame of at least the child's natural
    /// minimum, anchored at the top-left cell of the frame; what lies outside
    /// the frame is not painted. Where the child reports an error even for
    /// unbounded space, nothing is painted and the error is returned.
    open spec fn render_spec(
        &self,
        before: RenderCtx,
        after: RenderCtx,
        r: RenderResult,
    ) -> bool {
        &&& (self.child.layout_spec(unbounded()) matches Err(e) ==> r == Err::<(), RenderError>(
            RenderError::Layout(e),
        ) && after.canvas() == before.canvas())
        &&& after.placed() == match self.child.layout_spec(unbounded()) {
            Ok(layout) => before.placed().push(
                Rect {
                    origin: before.frame().origin,
                    size: layout.min.join(before.frame().size),
                },
            ),
            Err(_) => before.placed(),
        }
        &&& (self.child.layout_spec(unbounded()) matches Ok(layout) ==> after.rendered(
            &before,
            Rect { origin: before.frame().origin, size: layout.min.join(before.frame().size) },
            &self.child,
            r,
        ))
    }

    proof fn lemma_layout_within(&self, available: Size) {
        self.child.lemma_layout_within(unbounded());
    }

    fn event(&mut self, event: &AnyEvent, size: &Size) -> (r: EventResult) {
        self.child.event(event, size)
    }

    fn layout(&self, avail_size: &Size) -> (r: LayoutResult) {
        match self.child.layout(&Size::new(usize::MAX, usize::MAX)) {
            Ok(layout) => Ok(
                LayoutSize {
                    min: layout.min.min(Size::new(1, 1)).min(*avail_size),
                    max: layout.max.min(*avail_size),
                    flex: layout.flex,
                    fit: layout.fit,
                },
            ),
            Err(e) => Err(e),
        }
    }

    fn render(&self, ctx: &mut RenderCtx) -> (r: RenderResult) {
        let frame = ctx.get_frame();
        match self.child.layout(&Size::new(usize::MAX, usize::MAX)) {
            Ok(layout) => {
                let size = layout.min.max(frame.size);
                ctx.render_child(Rect::new(frame.origin, size), &self.child)
            },
            Err(e) => Err(RenderError::Layout(e)),
        }
    }

    fn has_capability(&self, capability: &Capability) -> (r: bool) {
        self.child.has_capability(capability)
    }
}

} // verus!
