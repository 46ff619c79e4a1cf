//! A child with an explicit weight and fit.

use vstd::prelude::*;
use crate::geometry::Size;
use crate::layout::{FlexFit, LayoutResult, LayoutSize, RenderResult};
use crate::render::RenderCtx;
use crate::widgets::{AnyEvent, Capability, EventResult, Widget};

verus! {

/// Gives its child a share of its parent's leftover space: of weight `flex`,
/// applied as `fit` says.
pub struct Flexible<Child> {
    pub flex: usize,
    pub fit: FlexFit,
    pub child: Child,
}

impl Flexible<()> {
    /// A tight share of weight `flex`, for a child to be named.
    pub fn tight(flex: usize) -> (r: Self)
        ensures
            r.flex == flex,
            r.fit == FlexFit::Tight,
    {
        Flexible { flex, fit: FlexFit::Tight, child: () }
    }

    /// A loose share of weight `flex`, for a child to be named.
    pub fn loose(flex: usize) -> (r: Self)
        ensures
            r.flex == flex,
            r.fit == FlexFit::Loose,
    {
        Flexible { flex, fit: FlexFit::Loose, child: () }
    }

    /// The same share for `child`.
    pub fn child<Child2: Widget>(self, child: Child2) -> (r: Flexible<Child2>)
        ensures
            r.flex == self.flex,
            r.fit == self.fit,
            r.child == child,
    {
        Flexible { flex: self.flex, fit: self.fit, child }
    }
}

impl<Child: Widget> Widget for Flexible<Child> {
    /// The child's range, with the weight and fit of this widget.
    open spec fn layout_spec(&self, available: Size) -> LayoutResult {
        match self.child.layout_spec(available) {
            Ok(layout) => Ok(LayoutSize { flex: self.flex, fit: self.fit, ..layout }),
            Err(e) => Err(e),
        }
    }

    open spec fn event_spec(&self, event: AnyEvent, size: Size) -> EventResult {
        self.child.event_spec(event, size)
    }

    open spec fn capability_spec(&self, capability: &Capability) -> bool {
        self.child.capability_spec(capability)
    }

    /// Renders the child into the whole frame.
    open spec fn render_spec(
        &self,
        before: RenderCtx,
        after: RenderCtx,
        r: RenderResult,
    ) -> bool {
        &&& after.rendered(&before, before.frame(), &self.child, r)
    }

    proof fn lemma_layout_within(&self, available: Size) {
        self.child.lemma_layout_within(available);
    }

    fn event(&mut self, event: &AnyEvent, size: &Size) -> (r: EventResult)
        ensures
            final(self).flex == old(self).flex,
            final(self).fit == old(self).fit,
    {
        self.child.event(event, size)
    }

    fn layout(&self, avail_size: &Size) -> (r: LayoutResult) {
        match self.child.layout(avail_size) {
            Ok(layout) => Ok(layout.flex(self.flex).fit(self.fit)),
            Err(e) => Err(e),
        }
    }

    fn render(&self, ctx: &mut RenderCtx) -> (r: RenderResult) {
        let frame = ctx.get_frame();
        ctx.render_child(frame, &self.child)
    }

    fn has_capability(&self, capability: &Capability) -> (r: bool) {
        self.child.has_capability(capability)
    }
}

} // verus!
