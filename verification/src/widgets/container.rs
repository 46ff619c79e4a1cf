//! Children side by side, each at its largest size.

use vstd::prelude::*;
use crate::geometry::{Rect, Size};
use crate::layout::{FlexFit, LayoutError, LayoutResult, LayoutSize, RenderError, RenderResult};
use crate::render::RenderCtx;
use crate::widgets::flexible::Flexible;
use crate::widgets::linear::{
    Axis, frames_linear, layout_linear, linear_layout, linear_plan, render_linear,
    rendered_until_error,
};
use crate::widgets::{AnyEvent, Capability, EventResult, Widget};

verus! {

/// Lays its children out side by side, from left to right, each as wide as
/// its maximum: whatever weight a child has, it takes no share of leftover
/// width.
pub struct Container<Child> {
    children: Vec<Flexible<Child>>,
    must_fit_all_children: bool,
}

/// A child that takes no share of leftover space.
pub open spec fn rigid<Child>(child: Child) -> Flexible<Child> {
    Flexible { flex: 0, fit: FlexFit::Loose, child }
}

impl<Child: Widget> Container<Child> {
    /// The children, each marked as taking no share of leftover space.
    pub closed spec fn slots(&self) -> Seq<Flexible<Child>> {
        self.children@
    }

    /// Whether a child without enough space fails the whole widget.
    pub closed spec fn must_fit(&self) -> bool {
        self.must_fit_all_children
    }

    /// The children, in order.
    pub open spec fn kids(&self) -> Seq<Child> {
        Seq::new(self.slots().len(), |i: int| self.slots()[i].child)
    }

    /// Every child is held as a child without weight.
    pub open spec fn wf(&self) -> bool {
        forall|i: int|
            0 <= i < self.slots().len() ==> #[trigger] self.slots()[i] == rigid(
                self.slots()[i].child,
            )
    }

    /// Without children; children that do not fit are left out.
    pub fn new() -> (r: Self)
        ensures
            r.wf(),
            r.kids().len() == 0,
            !r.must_fit(),
    {
        Container { children: Vec::new(), must_fit_all_children: false }
    }

    /// The same with `child` added as the last child.
    pub fn child(self, child: Child) -> (r: Self)
        requires
            self.wf(),
        ensures
            r.wf(),
            r.kids() == self.kids().push(child),
            r.must_fit() == self.must_fit(),
    {
        let mut children = self.children;
        children.push(Flexible { flex: 0, fit: FlexFit::Loose, child });
        let r = Container { children, must_fit_all_children: self.must_fit_all_children };
        r
    }

    /// The same with `children` in place of the children it had.
    pub fn children(self, children: Vec<Child>) -> (r: Self)
        ensures
            r.wf(),
            r.kids() == children@,
            r.must_fit() == self.must_fit(),
    {
        let mut rest = children;
        let mut slots: Vec<Flexible<Child>> = Vec::new();
        while rest.len() > 0
            invariant
                slots@.len() + rest@.len() == children@.len(),
                forall|i: int|
                    0 <= i < slots@.len() ==> #[trigger] slots@[i] == rigid(children@[i]),
                forall|i: int|
                    0 <= i < rest@.len() ==> #[trigger] rest@[i] == children@[slots@.len() + i],
            decreases rest@.len(),
        {
            let child = rest.remove(0);
            slots.push(Flexible { flex: 0, fit: FlexFit::Loose, child });
        }
        let r = Container { children: slots, must_fit_all_children: self.must_fit_all_children };
        assert(r.kids() =~= children@);
        r
    }

    pub fn must_fit_all_children(self, must_fit_all_children: bool) -> (r: Self)
        requires
            self.wf(),
        ensures
            r.wf(),
            r.kids() == self.kids(),
            r.must_fit() == must_fit_all_children,
    {
        Container { children: self.children, must_fit_all_children }
    }

    /// The frames that the children are rendered into when the widget is
    /// given `frame`, in the order of the children. Children that were left
    /// out have none.
    pub fn child_frames(&self, frame: &Rect) -> (r: Result<Vec<Rect>, LayoutError>)
        ensures
            match linear_plan(self.slots(), Axis::Horizontal, self.must_fit(), *frame) {
                Ok(frames) => r matches Ok(found) && found@ == frames,
                Err(e) => r == Err::<Vec<Rect>, LayoutError>(e),
            },
            r is Err <==> self.layout_spec(frame.size) is Err,
            r matches Err(e) ==> self.layout_spec(frame.size) == Err::<LayoutSize, LayoutError>(e),
            r matches Ok(frames) ==> frames@.len() <= self.kids().len(),
    {
        frames_linear(&self.children, Axis::Horizontal, self.must_fit_all_children, frame)
    }
}

impl<Child: Widget> Widget for Container<Child> {
    /// The range of a row of the children, none of which has weight: the
    /// widths add up, the height is that of the highest child.
    open spec fn layout_spec(&self, available: Size) -> LayoutResult {
        linear_layout(self.slots(), Axis::Horizontal, self.must_fit(), available)
    }

    /// No event is passed on to the children.
    open spec fn event_spec(&self, event: AnyEvent, size: Size) -> EventResult {
        EventResult::Unhandled
    }

    open spec fn capability_spec(&self, capability: &Capability) -> bool {
        false
    }

    /// Renders each child that is laid out into its frame, in order. The
    /// first child whose render fails ends the render with its error; where
    /// none fails, the render succeeds. Where the layout fails, nothing is
    /// painted and its error is returned.
    open spec fn render_spec(
        &self,
        before: RenderCtx,
        after: RenderCtx,
        r: RenderResult,
    ) -> bool {
        &&& (self.layout_spec(before.frame().size) matches Err(e) ==> {
            &&& r == Err::<(), RenderError>(RenderError::Layout(e))
            &&& after.canvas() == before.canvas()
            &&& after.placed() == before.placed()
        })
        &&& (linear_plan(self.slots(), Axis::Horizontal, self.must_fit(), before.frame()) matches Ok(plan) ==> {
            &&& after.placed_some_of(&before, plan)
            &&& after.painted_where_placed(&before)
            &&& r is Ok ==> after.placed_all_of(&before, plan)
            &&& r is Err ==> after.last_child_rendered(&before)
            &&& rendered_until_error(before, after, plan, self.slots(), r)
        })
    }

    proof fn lemma_layout_within(&self, available: Size) {
        crate::widgets::linear::lemma_linear_invariant(
            self.slots(),
            Axis::Horizontal,
            self.must_fit(),
            available,
            self.slots().len() as int,
        );
    }

    fn event(&mut self, event: &AnyEvent, size: &Size) -> (r: EventResult)
        ensures
            *final(self) == *old(self),
    {
        EventResult::Unhandled
    }

    fn layout(&self, avail_size: &Size) -> (r: LayoutResult) {
        match layout_linear(
            &self.children,
            Axis::Horizontal,
            self.must_fit_all_children,
            avail_size,
        ) {
            Ok((layout, _)) => Ok(layout),
            Err(e) => Err(e),
        }
    }

    fn render(&self, ctx: &mut RenderCtx) -> (r: RenderResult) {
        render_linear(&self.children, Axis::Horizontal, self.must_fit_all_children, ctx)
    }

    fn has_capability(&self, capability: &Capability) -> (r: bool) {
        false
    }
}

} // verus!
