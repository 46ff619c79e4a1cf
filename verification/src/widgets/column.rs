//! Children one below the other, from top to bottom.

use vstd::prelude::*;
use crate::flex::MinMaxFlex;
use crate::geometry::{Rect, Size};
use crate::layout::{LayoutError, LayoutResult, LayoutSize, RenderError, RenderResult};
use crate::render::RenderCtx;
use crate::widgets::children::ChildrenStorage;
use crate::widgets::linear::{
    Axis, frames_linear, layout_linear, linear_layout, linear_plan, linear_progress, linear_range,
    render_linear, rendered_until_error,
};
use crate::widgets::{AnyEvent, Capability, EventResult, Widget};

verus! {

/// Lays its children out one below the other, from top to bottom, each as
/// high as the distribution of the frame's height says and as wide as the
/// frame.
pub struct Column<Children> {
    pub children: Children,
    /// Whether a child without enough space fails the whole widget. Where it
    /// does not, that child and all after it are left out.
    pub must_fit_all_children: bool,
}

impl<Child: Widget> Column<Vec<Child>> {
    /// Without children; children that do not fit are left out.
    pub fn new() -> (r: Self)
        ensures
            r.children@.len() == 0,
            !r.must_fit_all_children,
    {
        Column { children: Vec::new(), must_fit_all_children: false }
    }

    /// The same with `child` added as the last child.
    pub fn child(self, child: Child) -> (r: Self)
        ensures
            r.children@ == self.children.children_spec().push(child),
            r.must_fit_all_children == self.must_fit_all_children,
    {
        let mut children = self.children;
        children.push(child);
        Column { children, must_fit_all_children: self.must_fit_all_children }
    }

}

impl<Children: ChildrenStorage> Column<Children> {
    /// The frames of the children when the widget is given `frame`, or the
    /// error of its layout. Children that are left out have none.
    pub open spec fn plan(&self, frame: Rect) -> Result<Seq<Rect>, LayoutError> {
        linear_plan(
            self.children.children_spec(),
            Axis::Vertical,
            self.must_fit_all_children,
            frame,
        )
    }

    /// The same with `children` in place of the children it had.
    pub fn children<Children2: ChildrenStorage>(self, children: Children2) -> (r: Column<Children2>)
        ensures
            r.children == children,
            r.must_fit_all_children == self.must_fit_all_children,
    {
        Column { children, must_fit_all_children: self.must_fit_all_children }
    }

    pub fn must_fit_all_children(self, must_fit_all_children: bool) -> (r: Self)
        ensures
            r.children == self.children,
            r.must_fit_all_children == must_fit_all_children,
    {
        Column { children: self.children, must_fit_all_children }
    }

    /// The range of the whole and, for each child that is laid out, what it
    /// asks of the distribution of the height.
    pub fn layout_impl(&self, total_avail_size: &Size) -> (r: Result<
        (LayoutSize, Vec<MinMaxFlex>),
        LayoutError,
    >)
        ensures
            match linear_progress(
                self.children.children_spec(),
                Axis::Vertical,
                self.must_fit_all_children,
                *total_avail_size,
                self.children.children_spec().len() as int,
            ) {
                Ok(found) => r matches Ok((layout, inputs)) && layout == linear_range(
                    Axis::Vertical,
                    found,
                    *total_avail_size,
                ) && inputs@ == found.inputs,
                Err(e) => r == Err::<(LayoutSize, Vec<MinMaxFlex>), LayoutError>(e),
            },
    {
        layout_linear(&self.children, Axis::Vertical, self.must_fit_all_children, total_avail_size)
    }

    /// The frames that the children are rendered into when the widget is
    /// given `frame`, in the order of the children. Children that were left
    /// out have none.
    pub fn child_frames(&self, frame: &Rect) -> (r: Result<Vec<Rect>, LayoutError>)
        ensures
            match self.plan(*frame) {
                Ok(frames) => r matches Ok(found) && found@ == frames,
                Err(e) => r == Err::<Vec<Rect>, LayoutError>(e),
            },
            r is Err <==> self.layout_spec(frame.size) is Err,
            r matches Err(e) ==> self.layout_spec(frame.size) == Err::<LayoutSize, LayoutError>(e),
            r matches Ok(frames) ==> frames@.len() <= self.children.children_spec().len(),
    {
        frames_linear(&self.children, Axis::Vertical, self.must_fit_all_children, frame)
    }
}

impl<Children: ChildrenStorage> Widget for Column<Children> {
    /// The heights add up, the width is that of the widest child.
    open spec fn layout_spec(&self, available: Size) -> LayoutResult {
        linear_layout(self.children.children_spec(), Axis::Vertical, self.must_fit_all_children, available)
    }

    /// No event is passed on to the children.
    open spec fn event_spec(&self, event: AnyEvent, size: Size) -> EventResult {
        EventResult::Unhandled
    }

    open spec fn capability_spec(&self, capability: &Capability) -> bool {
        false
    }

    /// Renders each child that is laid out into its frame, in order. The
    /// first child whose render fails ends the render with its error; where
    /// none fails, the render succeeds. Where the layout fails, nothing is
    /// painted and its error is returned.
    open spec fn render_spec(
        &self,
        before: RenderCtx,
        after: RenderCtx,
        r: RenderResult,
    ) -> bool {
        &&& (self.layout_spec(before.frame().size) matches Err(e) ==> {
            &&& r == Err::<(), RenderError>(RenderError::Layout(e))
            &&& after.canvas() == before.canvas()
            &&& after.placed() == before.placed()
        })
        &&& (self.plan(before.frame()) matches Ok(plan) ==> {
            &&& after.placed_some_of(&before, plan)
            &&& after.painted_where_placed(&before)
            &&& r is Ok ==> after.placed_all_of(&before, plan)
            &&& r is Err ==> after.last_child_rendered(&before)
            &&& rendered_until_error(before, after, plan, self.children.children_spec(), r)
        })
    }

    proof fn lemma_layout_within(&self, available: Size) {
        crate::widgets::linear::lemma_linear_invariant(
            self.children.children_spec(),
            Axis::Vertical,
            self.must_fit_all_children,
            available,
            self.children.children_spec().len() as int,
        );
    }

    fn event(&mut self, event: &AnyEvent, size: &Size) -> (r: EventResult)
        ensures
            *final(self) == *old(self),
    {
        EventResult::Unhandled
    }

    fn layout(&self, total_avail_size: &Size) -> (r: LayoutResult) {
        match self.layout_impl(total_avail_size) {
            Ok((layout, _)) => Ok(layout),
            Err(e) => Err(e),
        }
    }

    fn render(&self, ctx: &mut RenderCtx) -> (r: RenderResult) {
        render_linear(&self.children, Axis::Vertical, self.must_fit_all_children, ctx)
    }

    fn has_capability(&self, capability: &Capability) -> (r: bool) {
        false
    }
}

} // verus!
