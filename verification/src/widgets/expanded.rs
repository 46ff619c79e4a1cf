//! Children that take all the space that their parent has left.

use vstd::prelude::*;
use crate::geometry::Size;
use crate::layout::{FlexFit, LayoutResult, LayoutSize, RenderResult};
use crate::render::RenderCtx;
use crate::widgets::{AnyEvent, Capability, EventResult, Widget};

verus! {

/// The range of a child that is to fill what is available: its minimum is
/// kept, its maximum is all that is available, and it takes a tight share of
/// weight `flex`.
pub open spec fn expanded_layout(inner: LayoutResult, available: Size, flex: usize) -> LayoutResult {
    match inner {
        Ok(layout) => Ok(
            LayoutSize { min: layout.min, max: available, flex, fit: FlexFit::Tight },
        ),
        Err(e) => Err(e),
    }
}

/// A child that grows into leftover space with weight `flex`.
pub struct Expanded<Child> {
    pub flex: usize,
    pub child: Child,
}

impl<Child> Expanded<Child> {
    /// `child`, growing with weight one.
    pub fn child(child: Child) -> (r: Self)
        ensures
            r.flex == 1,
            r.child == child,
    {
        Expanded { flex: 1, child }
    }

    /// `child`, growing with weight `flex`.
    pub fn flex_child(flex: usize, child: Child) -> (r: Self)
        ensures
            r.flex == flex,
            r.child == child,
    {
        Expanded { flex, child }
    }
}

impl<Child: Widget> Widget for Expanded<Child> {
    open spec fn layout_spec(&self, available: Size) -> LayoutResult {
        expanded_layout(self.child.layout_spec(available), available, self.flex)
    }

    open spec fn event_spec(&self, event: AnyEvent, size: Size) -> EventResult {
        self.child.event_spec(event, size)
    }

    open spec fn capability_spec(&self, capability: &Capability) -> bool {
        self.child.capability_spec(capability)
    }

    /// Renders the child into the whole frame, which is the one that the
    /// parent assigned.
    open spec fn render_spec(
        &self,
        before: RenderCtx,
        after: RenderCtx,
        r: RenderResult,
    ) -> bool {
        &&& after.rendered(&before, before.frame(), &self.child, r)
    }

    proof fn lemma_layout_within(&self, available: Size) {
        self.child.lemma_layout_within(available);
    }

    fn event(&mut self, event: &AnyEvent, size: &Size) -> (r: EventResult)
        ensures
            final(self).flex == old(self).flex,
    {
        self.child.event(event, size)
    }

    fn layout(&self, avail_size: &Size) -> (r: LayoutResult) {
        match self.child.layout(avail_size) {
            Ok(layout) => Ok(layout.max(*avail_size).flex(self.flex).fit(FlexFit::Tight)),
            Err(e) => Err(e),
        }
    }

    fn render(&self, ctx: &mut RenderCtx) -> (r: RenderResult) {
        let frame = ctx.get_frame();
        ctx.render_child(frame, &self.child)
    }

    fn has_capability(&self, capability: &Capability) -> (r: bool) {
        self.child.has_capability(capability)
    }
}

/// A child that grows into leftover space with weight one.
pub struct Expand<Child> {
    child: Child,
}

impl<Child> Expand<Child> {
    /// The child that is expanded.
    pub closed spec fn inner(&self) -> Child {
        self.child
    }

    pub fn child(child: Child) -> (r: Self)
        ensures
            r.inner() == child,
    {
        Expand { child }
    }
}

impl<Child: Widget> Widget for Expand<Child> {
    open spec fn layout_spec(&self, available: Size) -> LayoutResult {
        expanded_layout(self.inner().layout_spec(available), available, 1)
    }

    open spec fn event_spec(&self, event: AnyEvent, size: Size) -> EventResult {
        self.inner().event_spec(event, size)
    }

    open spec fn capability_spec(&self, capability: &Capability) -> bool {
        self.inner().capability_spec(capability)
    }

    /// Renders the child into the whole frame, which is the one that the
    /// parent assigned.
    open spec fn render_spec(
        &self,
        before: RenderCtx,
        after: RenderCtx,
        r: RenderResult,
    ) -> bool {
        &&& after.rendered(&before, before.frame(), &self.inner(), r)
    }

    proof fn lemma_layout_within(&self, available: Size) {
        self.inner().lemma_layout_within(available);
    }

    fn event(&mut self, event: &AnyEvent, size: &Size) -> (r: EventResult) {
        self.child.event(event, size)
    }

    fn layout(&self, avail_size: &Size) -> (r: LayoutResult) {
        match self.child.layout(avail_size) {
            Ok(layout) => Ok(layout.max(*avail_size).flex(1).fit(FlexFit::Tight)),
            Err(e) => Err(e),
        }
    }

    fn render(&self, ctx: &mut RenderCtx) -> (r: RenderResult) {
        let frame = ctx.get_frame();
        ctx.render_child(frame, &self.child)
    }

    fn has_capability(&self, capability: &Capability) -> (r: bool) {
        self.child.has_capability(capability)
    }
}

} // verus!
