//! Children painted on top of each other.

use vstd::prelude::*;
use crate::geometry::Size;
use crate::layout::{FlexFit, LayoutError, LayoutResult, LayoutSize, RenderError, RenderResult};
use crate::render::{
    lemma_painted_where_placed, lemma_rendered_next, rendered_in_turn, RenderCtx,
};
use crate::widgets::children::ChildrenStorage;
use crate::widgets::{AnyEvent, Capability, EventResult, Widget};

verus! {

/// Paints every child into the same frame, in order, so that a later child
/// covers an earlier one.
pub struct Stack<Children> {
    pub children: Children,
    /// Whether a child without enough space fails the whole widget. Where it
    /// does not, that child and all after it are left out.
    pub must_fit_all_children: bool,
}

/// What the layout of a stack has found after some of its children.
pub struct StackProgress {
    /// A child had not enough space: the children after it are left out.
    pub stopped: bool,
    /// Largest minimum so far, per axis.
    pub min: Size,
    /// Largest maximum so far, per axis.
    pub max: Size,
}

/// The layout of a stack after its first `k` children, each offered all of
/// `available`.
pub open spec fn stack_progress<Child: Widget>(
    children: Seq<Child>,
    must_fit: bool,
    available: Size,
    k: int,
) -> Result<StackProgress, LayoutError>
    decreases k,
{
    if k <= 0 {
        Ok(
            StackProgress {
                stopped: false,
                min: Size { width: 0, height: 0 },
                max: Size { width: 0, height: 0 },
            },
        )
    } else {
        match stack_progress(children, must_fit, available, k - 1) {
            Err(e) => Err(e),
            Ok(before) => if before.stopped {
                Ok(before)
            } else {
                match children[k - 1].layout_spec(available) {
                    Ok(layout) => Ok(
                        StackProgress {
                            stopped: false,
                            min: before.min.join(layout.min),
                            max: before.max.join(layout.max),
                        },
                    ),
                    Err(LayoutError::InsufficientSpace) => if must_fit {
                        Err(LayoutError::InsufficientSpace)
                    } else {
                        Ok(StackProgress { stopped: true, ..before })
                    },
                    Err(e) => Err(e),
                }
            },
        }
    }
}

/// The range of a stack: on each axis the largest minimum and the largest
/// maximum of the children that are laid out.
pub open spec fn stack_layout<Child: Widget>(
    children: Seq<Child>,
    must_fit: bool,
    available: Size,
) -> LayoutResult {
    match stack_progress(children, must_fit, available, children.len() as int) {
        Ok(found) => Ok(LayoutSize { min: found.min, max: found.max, flex: 0, fit: FlexFit::Loose }),
        Err(e) => Err(e),
    }
}

/// What a stack reports is in order and within what was offered.
pub proof fn lemma_stack_progress_within<Child: Widget>(
    children: Seq<Child>,
    must_fit: bool,
    available: Size,
    k: int,
)
    requires
        0 <= k <= children.len(),
    ensures
        stack_progress(children, must_fit, available, k) matches Ok(found) ==> found.max.fits(
            found.min,
        ) && available.fits(found.max),
    decreases k,
{
    if k > 0 {
        lemma_stack_progress_within(children, must_fit, available, k - 1);
        children[k - 1].lemma_layout_within(available);
    }
}

impl<Child: Widget> Stack<Vec<Child>> {
    /// A stack without children that fails when a child has not enough
    /// space.
    pub fn new() -> (r: Self)
        ensures
            r.children@.len() == 0,
            r.must_fit_all_children,
    {
        Stack { children: Vec::new(), must_fit_all_children: true }
    }

    /// The same stack with `child` on top.
    pub fn child(self, child: Child) -> (r: Self)
        ensures
            r.children@ == self.children@.push(child),
            r.must_fit_all_children == self.must_fit_all_children,
    {
        let mut children = self.children;
        children.push(child);
        Stack { children, must_fit_all_children: self.must_fit_all_children }
    }
}

impl<Children: ChildrenStorage> Stack<Children> {
    /// The same stack with `children` in place of the children it had.
    pub fn children<Children2: ChildrenStorage>(self, children: Children2) -> (r: Stack<Children2>)
        ensures
            r.children == children,
            r.must_fit_all_children == self.must_fit_all_children,
    {
        Stack { children, must_fit_all_children: self.must_fit_all_children }
    }

    pub fn must_fit_all_children(self, must_fit_all_children: bool) -> (r: Self)
        ensures
            r.children == self.children,
            r.must_fit_all_children == must_fit_all_children,
    {
        Stack { children: self.children, must_fit_all_children }
    }
}

impl<Children: ChildrenStorage> Widget for Stack<Children> {
    open spec fn layout_spec(&self, available: Size) -> LayoutResult {
        stack_layout(self.children.children_spec(), self.must_fit_all_children, available)
    }

    /// A stack passes no event on.
    open spec fn event_spec(&self, event: AnyEvent, size: Size) -> EventResult {
        EventResult::Unhandled
    }

    open spec fn capability_spec(&self, capability: &Capability) -> bool {
        false
    }

    /// Renders every child into the whole frame, in order. Where the layout
    /// fails, nothing is painted and its error is returned. A child that
    /// reports not enough space while rendering fails the widget if all
    /// children must fit, and else ends the render without an error; any other
    /// error of a child is passed over. So a stack whose children need not
    /// all fit never fails once it is laid out, and a stack that succeeds
    /// though all must fit has rendered every child.
    open spec fn render_spec(
        &self,
        before: RenderCtx,
        after: RenderCtx,
        r: RenderResult,
    ) -> bool {
        &&& (self.layout_spec(before.frame().size) matches Err(e) ==> {
            &&& r == Err::<(), RenderError>(RenderError::Layout(e))
            &&& after.canvas() == before.canvas()
            &&& after.placed() == before.placed()
        })
        &&& self.layout_spec(before.frame().size) is Ok ==> ({
            let plan = Seq::new(
                self.children.children_spec().len(),
                |i: int| before.frame(),
            );
            &&& after.placed_some_of(&before, plan)
            &&& after.painted_where_placed(&before)
            &&& !self.must_fit_all_children ==> r is Ok
            &&& r is Err ==> {
                &&& self.must_fit_all_children
                &&& r == Err::<(), RenderError>(
                    RenderError::Layout(LayoutError::InsufficientSpace),
                )
                &&& after.last_child_rendered(&before)
            }
            &&& self.must_fit_all_children && r is Ok ==> after.placed_all_of(
                &before,
                plan,
            )
            &&& exists|steps: Seq<RenderCtx>, results: Seq<RenderResult>|
                {
                    &&& #[trigger] rendered_in_turn(
                        steps,
                        plan,
                        self.children.children_spec(),
                        results,
                    )
                    &&& steps[0] == before
                    &&& steps.last() == after
                    &&& first_verdict_ends(
                        self.must_fit_all_children,
                        results,
                        plan.len(),
                        r,
                    )
                }
        })
    }

    proof fn lemma_layout_within(&self, available: Size) {
        lemma_stack_progress_within(
            self.children.children_spec(),
            self.must_fit_all_children,
            available,
            self.children.children_spec().len() as int,
        );
    }

    fn event(&mut self, event: &AnyEvent, size: &Size) -> (r: EventResult)
        ensures
            *final(self) == *old(self),
    {
        EventResult::Unhandled
    }

    fn layout(&self, avail_size: &Size) -> (r: LayoutResult) {
        let mut min = Size::zero();
        let mut max = Size::zero();
        let n: usize = self.children.len();
        let mut stopped: bool = false;
        let mut i: usize = 0;
        while i < n && !stopped
            invariant
                n == self.children.children_spec().len(),
                0 <= i <= n,
                stack_progress(
                    self.children.children_spec(),
                    self.must_fit_all_children,
                    *avail_size,
                    i as int,
                ) == Ok::<StackProgress, LayoutError>(StackProgress { stopped, min, max }),
            decreases n - i,
        {
            let child = self.children.child(i).unwrap();
            match child.get().layout(avail_size) {
                Ok(layout) => {
                    min = min.max(layout.min);
                    max = max.max(layout.max);
                },
                Err(LayoutError::InsufficientSpace) => {
                    if self.must_fit_all_children {
                        proof {
                            lemma_stack_error_stays(
                                self.children.children_spec(),
                                self.must_fit_all_children,
                                *avail_size,
                                i + 1,
                                n as int,
                            );
                        }
                        return Err(LayoutError::InsufficientSpace);
                    }
                    stopped = true;
                },
                Err(e) => {
                    proof {
                        lemma_stack_error_stays(
                            self.children.children_spec(),
                            self.must_fit_all_children,
                            *avail_size,
                            i + 1,
                            n as int,
                        );
                    }
                    return Err(e);
                },
            }
            i = i + 1;
        }
        proof {
            lemma_stack_stop_stays(
                self.children.children_spec(),
                self.must_fit_all_children,
                *avail_size,
                i as int,
                n as int,
            );
        }
        Ok(LayoutSize { min, max, flex: 0, fit: FlexFit::Loose })
    }

    fn render(&self, ctx: &mut RenderCtx) -> (r: RenderResult) {
        let frame = ctx.get_frame();
        match self.layout(&frame.size) {
            Err(e) => {
                return Err(RenderError::Layout(e));
            },
            Ok(_) => {},
        }
        let n: usize = self.children.len();
        let mut i: usize = 0;
        let ghost plan = Seq::new(n as nat, |k: int| frame);
        let ghost mut steps: Seq<RenderCtx> = seq![*ctx];
        let ghost mut results: Seq<RenderResult> = Seq::empty();
        while i < n
            invariant
                n == self.children.children_spec().len(),
                0 <= i <= n,
                plan == Seq::new(n as nat, |k: int| frame),
                rendered_in_turn(steps, plan, self.children.children_spec(), results),
                results.len() == i,
                steps[0] == *old(ctx),
                steps.last() == *ctx,
                forall|j: int|
                    0 <= j < i ==> verdict(self.must_fit_all_children, #[trigger] results[j])
                        is None,
                ctx.confined(old(ctx)),
                frame == old(ctx).frame(),
                self.layout_spec(old(ctx).frame().size) is Ok,
                ctx.placed() == old(ctx).placed() + Seq::new(i as nat, |k: int| frame),
                ctx.painted_where_placed(old(ctx)),
            decreases n - i,
        {
            let child = self.children.child(i).unwrap();
            let ghost before = *ctx;
            let result = ctx.render_child(frame, child.get());
            proof {
                lemma_painted_where_placed(*old(ctx), before, *ctx, frame);
                lemma_rendered_next(
                    steps,
                    plan,
                    self.children.children_spec(),
                    results,
                    *ctx,
                    result,
                );
                steps = steps.push(*ctx);
                results = results.push(result);
                assert(ctx.placed() =~= old(ctx).placed() + Seq::new((i + 1) as nat, |k: int| frame));
                assert(plan.take(i + 1) =~= Seq::new((i + 1) as nat, |k: int| frame));
                assert(ctx.placed().last() == frame);
            }
            match after_child(self.must_fit_all_children, result) {
                Some(outcome) => {
                    return outcome;
                },
                None => {},
            }
            i = i + 1;
        }
        proof {
            assert(plan.take(n as int) =~= plan);
        }
        Ok(())
    }

    fn has_capability(&self, capability: &Capability) -> (r: bool) {
        false
    }
}

/// What the render of a stack makes of what a child reported: not enough
/// space ends the render, with that error if all children must fit and
/// without an error else; after anything else the next child is rendered.
pub open spec fn verdict(must_fit: bool, result: RenderResult) -> Option<RenderResult> {
    match result {
        Err(RenderError::Layout(LayoutError::InsufficientSpace)) => Some(
            if must_fit {
                Err::<(), RenderError>(RenderError::Layout(LayoutError::InsufficientSpace))
            } else {
                Ok::<(), RenderError>(())
            },
        ),
        _ => None::<RenderResult>,
    }
}

/// The first of `results` that ends the render of a stack is the last of
/// them, and `result` is what the render ends with then; where none ends it,
/// there are `n` results and `result` is `Ok`.
pub open spec fn first_verdict_ends(
    must_fit: bool,
    results: Seq<RenderResult>,
    n: nat,
    result: RenderResult,
) -> bool {
    &&& forall|j: int|
        0 <= j < results.len() - 1 ==> verdict(must_fit, #[trigger] results[j]) is None
    &&& if results.len() > 0 && verdict(must_fit, results.last()) is Some {
        verdict(must_fit, results.last()) == Some(result)
    } else {
        result is Ok && results.len() == n
    }
}

/// See [`verdict`].
pub fn after_child(must_fit: bool, result: RenderResult) -> (next: Option<RenderResult>)
    ensures
        next == verdict(must_fit, result),
{
    match result {
        Err(RenderError::Layout(LayoutError::InsufficientSpace)) => {
            if must_fit {
                Some(Err(RenderError::Layout(LayoutError::InsufficientSpace)))
            } else {
                Some(Ok(()))
            }
        },
        _ => None,
    }
}

/// Once the layout of a stack has failed, it stays failed.
pub proof fn lemma_stack_error_stays<Child: Widget>(
    children: Seq<Child>,
    must_fit: bool,
    available: Size,
    j: int,
    k: int,
)
    requires
        0 <= j <= k,
        stack_progress(children, must_fit, available, j) is Err,
    ensures
        stack_progress(children, must_fit, available, k) == stack_progress(
            children,
            must_fit,
            available,
            j,
        ),
    decreases k,
{
    if j < k {
        lemma_stack_error_stays(children, must_fit, available, j, k - 1);
    }
}

/// Once the layout of a stack has stopped, later children change nothing.
pub proof fn lemma_stack_stop_stays<Child: Widget>(
    children: Seq<Child>,
    must_fit: bool,
    available: Size,
    j: int,
    k: int,
)
    requires
        0 <= j <= k,
        j == k || (stack_progress(children, must_fit, available, j) matches Ok(found)
            && found.stopped),
    ensures
        stack_progress(children, must_fit, available, k) == stack_progress(
            children,
            must_fit,
            available,
            j,
        ),
    decreases k,
{
    if j < k {
        lemma_stack_stop_stays(children, must_fit, available, j, k - 1);
    }
}

} // verus!
