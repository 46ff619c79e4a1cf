//! A button that shows its child.

use vstd::prelude::*;
use crate::geometry::Size;
use crate::layout::{LayoutResult, RenderResult};
use crate::render::RenderCtx;
use crate::widgets::{AnyEvent, Capability, EventResult, Widget};

verus! {

pub struct Button<Child> {
    child: Child,
}

impl<Child: Widget> Button<Child> {
    /// What the button shows.
    pub closed spec fn label(&self) -> Child {
        self.child
    }

    pub fn child(child: Child) -> (r: Self)
        ensures
            r.label() == child,
    {
        Button { child }
    }
}

impl<Child: Widget> Widget for Button<Child> {
    /// The range of the label.
    open spec fn layout_spec(&self, available: Size) -> LayoutResult {
        self.label().layout_spec(available)
    }

    /// A button passes no event on and handles none itself.
    open spec fn event_spec(&self, event: AnyEvent, size: Size) -> EventResult {
        EventResult::Unhandled
    }

    open spec fn capability_spec(&self, capability: &Capability) -> bool {
        false
    }

    /// Renders the label into the whole frame.
    open spec fn render_spec(
        &self,
        before: RenderCtx,
        after: RenderCtx,
        r: RenderResult,
    ) -> bool {
        &&& after.rendered(&before, before.frame(), &self.label(), r)
    }

    proof fn lemma_layout_within(&self, available: Size) {
        self.label().lemma_layout_within(available);
    }

    fn event(&mut self, event: &AnyEvent, size: &Size) -> (r: EventResult)
        ensures
            *final(self) == *old(self),
    {
        EventResult::Unhandled
    }

    fn layout(&self, avail_size: &Size) -> (r: LayoutResult) {
        self.child.layout(avail_size)
    }

    fn render(&self, ctx: &mut RenderCtx) -> (r: RenderResult) {
        let frame = ctx.get_frame();
        ctx.render_child(frame, &self.child)
    }

    fn has_capability(&self, capability: &Capability) -> (r: bool) {
        false
    }
}

} // verus!
