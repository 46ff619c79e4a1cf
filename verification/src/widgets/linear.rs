//! Children laid out one after the other along an axis: the logic shared by
//! rows and columns.

use vstd::prelude::*;
use crate::flex::{
    compute_flex_layout, flex_size, lemma_size_upto_bounds, min_upto, size_upto, sum_min,
    sum_sizes, MinMaxFlex,
};
use crate::geometry::{clamp_usize, max_int, min_int, add_or_max, max_usize, Point, Rect, Size};
use crate::layout::{FlexFit, LayoutError, LayoutResult, LayoutSize, RenderError, RenderResult};
use crate::render::{
    lemma_painted_where_placed, lemma_rendered_next, rendered_in_turn, RenderCtx,
};
use crate::widgets::children::ChildrenStorage;
use crate::widgets::Widget;

verus! {

/// The direction in which children follow each other.
#[derive(Debug, Clone, Copy, PartialEq, Eq, Structural)]
pub enum Axis {
    /// Left to right: a row.
    Horizontal,
    /// Top to bottom: a column.
    Vertical,
}

impl Axis {
    /// Extent of `size` along the axis.
    pub open spec fn along(self, size: Size) -> usize {
        match self {
            Axis::Horizontal => size.width,
            Axis::Vertical => size.height,
        }
    }

    /// Extent of `size` across the axis.
    pub open spec fn across(self, size: Size) -> usize {
        match self {
            Axis::Horizontal => size.height,
            Axis::Vertical => size.width,
        }
    }

    /// The size with the given extents along and across the axis.
    pub open spec fn size(self, main: usize, cross: usize) -> Size {
        match self {
            Axis::Horizontal => Size { width: main, height: cross },
            Axis::Vertical => Size { width: cross, height: main },
        }
    }

    /// `frame`'s origin moved by `offset` along the axis, as far as the
    /// machine range goes.
    pub open spec fn shifted(self, origin: Point, offset: int) -> Point {
        match self {
            Axis::Horizontal => Point { x: clamp_usize(origin.x + offset), y: origin.y },
            Axis::Vertical => Point { x: origin.x, y: clamp_usize(origin.y + offset) },
        }
    }

    pub fn along_of(&self, size: Size) -> (r: usize)
        ensures
            r == self.along(size),
    {
        match self {
            Axis::Horizontal => size.width,
            Axis::Vertical => size.height,
        }
    }

    pub fn across_of(&self, size: Size) -> (r: usize)
        ensures
            r == self.across(size),
    {
        match self {
            Axis::Horizontal => size.height,
            Axis::Vertical => size.width,
        }
    }

    pub fn size_of(&self, main: usize, cross: usize) -> (r: Size)
        ensures
            r == self.size(main, cross),
    {
        match self {
            Axis::Horizontal => Size::new(main, cross),
            Axis::Vertical => Size::new(cross, main),
        }
    }

    pub fn shift(&self, origin: Point, offset: usize) -> (r: Point)
        ensures
            r == self.shifted(origin, offset as int),
    {
        match self {
            Axis::Horizontal => Point::new(add_or_max(origin.x, offset), origin.y),
            Axis::Vertical => Point::new(origin.x, add_or_max(origin.y, offset)),
        }
    }
}

/// What the layout of a row or column has found after some of its children.
pub struct LinearProgress {
    /// A child had not enough space: the children after it are left out.
    pub stopped: bool,
    /// What is still available to the next child.
    pub available: Size,
    /// Along the axis the sum of the reserved sizes, across it the largest.
    pub min: Size,
    /// Along the axis the sum of the maximums, across it the largest.
    pub max: Size,
    /// What the children laid out so far ask of the distribution.
    pub inputs: Seq<MinMaxFlex>,
}

/// What a child with the range `layout` asks of the distribution of space
/// along `axis`: from its reserved size up to its maximum.
pub open spec fn flex_input(axis: Axis, layout: LayoutSize) -> MinMaxFlex {
    MinMaxFlex {
        min: axis.along(layout.fixed()),
        max: axis.along(layout.max),
        flex: layout.flex,
        fit: layout.fit,
    }
}

/// The progress after one more child, which reports `layout`, was laid out.
pub open spec fn linear_step(axis: Axis, before: LinearProgress, layout: LayoutSize) -> LinearProgress {
    let fixed = layout.fixed();
    LinearProgress {
        stopped: false,
        available: axis.size(
            (axis.along(before.available) - axis.along(fixed)) as usize,
            axis.across(before.available),
        ),
        min: axis.size(
            clamp_usize(axis.along(before.min) + axis.along(fixed)),
            max_int(axis.across(before.min) as int, axis.across(fixed) as int) as usize,
        ),
        max: axis.size(
            clamp_usize(axis.along(before.max) + axis.along(layout.max)),
            max_int(axis.across(before.max) as int, axis.across(layout.max) as int) as usize,
        ),
        inputs: before.inputs.push(flex_input(axis, layout)),
    }
}

/// The layout of a row or column after its first `k` children. Each child is
/// offered what the children before it have left. A child that has not
/// enough space, or whose reserved size does not fit, fails the layout if
/// all children must fit; else it and the children after it are left out.
pub open spec fn linear_progress<Child: Widget>(
    children: Seq<Child>,
    axis: Axis,
    must_fit: bool,
    available: Size,
    k: int,
) -> Result<LinearProgress, LayoutError>
    decreases k,
{
    if k <= 0 {
        Ok(
            LinearProgress {
                stopped: false,
                available,
                min: Size { width: 0, height: 0 },
                max: Size { width: 0, height: 0 },
                inputs: Seq::empty(),
            },
        )
    } else {
        match linear_progress(children, axis, must_fit, available, k - 1) {
            Err(e) => Err(e),
            Ok(before) => if before.stopped {
                Ok(before)
            } else {
                match children[k - 1].layout_spec(before.available) {
                    Ok(layout) => if before.available.fits(layout.fixed()) {
                        Ok(linear_step(axis, before, layout))
                    } else if must_fit {
                        Err(LayoutError::InsufficientSpace)
                    } else {
                        Ok(LinearProgress { stopped: true, ..before })
                    },
                    Err(LayoutError::InsufficientSpace) => if must_fit {
                        Err(LayoutError::InsufficientSpace)
                    } else {
                        Ok(LinearProgress { stopped: true, ..before })
                    },
                    Err(e) => Err(e),
                }
            },
        }
    }
}

/// The range that a row or column reports, from what its layout found:
/// along the axis the sum of the reserved sizes up to the sum of the
/// maximums, as far as that is available; across it the largest of each.
pub open spec fn linear_range(axis: Axis, found: LinearProgress, available: Size) -> LayoutSize {
    LayoutSize {
        min: found.min,
        max: axis.size(
            min_int(axis.along(found.max) as int, axis.along(available) as int) as usize,
            axis.across(found.max),
        ),
        flex: 0,
        fit: FlexFit::Loose,
    }
}

/// The range of a row or column.
pub open spec fn linear_layout<Child: Widget>(
    children: Seq<Child>,
    axis: Axis,
    must_fit: bool,
    available: Size,
) -> LayoutResult {
    match linear_progress(children, axis, must_fit, available, children.len() as int) {
        Ok(found) => Ok(linear_range(axis, found, available)),
        Err(e) => Err(e),
    }
}

/// The final extents of the children along the axis when the row or column
/// is given `size`: what the distribution of `size`'s extent along the axis
/// over the children's requests yields.
pub open spec fn linear_sizes(inputs: Seq<MinMaxFlex>, space: int) -> Seq<usize> {
    Seq::new(inputs.len(), |i: int| flex_size(inputs, space, i) as usize)
}

/// The frames of the children of a row or column that is given `frame`, or
/// the error of its layout.
pub open spec fn linear_plan<Child: Widget>(
    children: Seq<Child>,
    axis: Axis,
    must_fit: bool,
    frame: Rect,
) -> Result<Seq<Rect>, LayoutError> {
    match linear_progress(children, axis, must_fit, frame.size, children.len() as int) {
        Ok(found) => Ok(
            linear_frames(axis, frame, linear_sizes(found.inputs, axis.along(frame.size) as int)),
        ),
        Err(e) => Err(e),
    }
}

/// The frame of the child that starts `offset` cells into `frame` along the
/// axis and is `extent` cells long: it spans `frame` across the axis.
pub open spec fn linear_frame(axis: Axis, frame: Rect, offset: int, extent: usize) -> Rect {
    Rect {
        origin: axis.shifted(frame.origin, offset),
        size: axis.size(extent, axis.across(frame.size)),
    }
}

/// The frames of the children with final extents `sizes`, one directly
/// after the other from the start of `frame`.
pub open spec fn linear_frames(axis: Axis, frame: Rect, sizes: Seq<usize>) -> Seq<Rect> {
    Seq::new(sizes.len(), |i: int| linear_frame(axis, frame, size_upto(sizes, i), sizes[i]))
}

/// Facts that hold of the layout after any number of children: what is
/// reserved and what is left add up to what was offered, the range found is
/// in order, and the requests collected reserve exactly the minimum found.
pub open spec fn linear_invariant(axis: Axis, found: LinearProgress, available: Size) -> bool {
    &&& axis.along(found.min) + axis.along(found.available) == axis.along(available)
    &&& axis.across(found.available) == axis.across(available)
    &&& axis.across(found.min) <= axis.across(found.max) <= axis.across(available)
    &&& axis.along(found.min) <= axis.along(found.max)
    &&& sum_min(found.inputs) == axis.along(found.min)
}

pub proof fn lemma_linear_invariant<Child: Widget>(
    children: Seq<Child>,
    axis: Axis,
    must_fit: bool,
    available: Size,
    k: int,
)
    requires
        0 <= k <= children.len(),
    ensures
        linear_progress(children, axis, must_fit, available, k) matches Ok(found)
            ==> linear_invariant(axis, found, available),
    decreases k,
{
    if k > 0 {
        lemma_linear_invariant(children, axis, must_fit, available, k - 1);
        match linear_progress(children, axis, must_fit, available, k - 1) {
            Ok(before) => {
                if !before.stopped {
                    children[k - 1].lemma_layout_within(before.available);
                    match children[k - 1].layout_spec(before.available) {
                        Ok(layout) => {
                            if before.available.fits(layout.fixed()) {
                                let after = linear_step(axis, before, layout);
                                assert(min_upto(after.inputs, after.inputs.len() - 1) == min_upto(
                                    before.inputs,
                                    before.inputs.len() as int,
                                )) by {
                                    lemma_min_upto_prefix(
                                        before.inputs,
                                        after.inputs,
                                        before.inputs.len() as int,
                                    );
                                }
                            }
                        },
                        Err(_) => {},
                    }
                }
            },
            Err(_) => {},
        }
    }
}

/// Sums over a common prefix of two lists of requests agree.
pub proof fn lemma_min_upto_prefix(a: Seq<MinMaxFlex>, b: Seq<MinMaxFlex>, k: int)
    requires
        0 <= k <= a.len(),
        k <= b.len(),
        forall|i: int| 0 <= i < k ==> a[i] == b[i],
    ensures
        min_upto(a, k) == min_upto(b, k),
    decreases k,
{
    if k > 0 {
        lemma_min_upto_prefix(a, b, k - 1);
    }
}

/// Once the layout has failed, it stays failed.
pub proof fn lemma_linear_error_stays<Child: Widget>(
    children: Seq<Child>,
    axis: Axis,
    must_fit: bool,
    available: Size,
    j: int,
    k: int,
)
    requires
        0 <= j <= k,
        linear_progress(children, axis, must_fit, available, j) is Err,
    ensures
        linear_progress(children, axis, must_fit, available, k) == linear_progress(
            children,
            axis,
            must_fit,
            available,
            j,
        ),
    decreases k,
{
    if j < k {
        lemma_linear_error_stays(children, axis, must_fit, available, j, k - 1);
    }
}

/// Once the layout has stopped, later children change nothing.
pub proof fn lemma_linear_stop_stays<Child: Widget>(
    children: Seq<Child>,
    axis: Axis,
    must_fit: bool,
    available: Size,
    j: int,
    k: int,
)
    requires
        0 <= j <= k,
        j == k || (linear_progress(children, axis, must_fit, available, j) matches Ok(found)
            && found.stopped),
    ensures
        linear_progress(children, axis, must_fit, available, k) == linear_progress(
            children,
            axis,
            must_fit,
            available,
            j,
        ),
    decreases k,
{
    if j < k {
        lemma_linear_stop_stays(children, axis, must_fit, available, j, k - 1);
    }
}

/// Lays the children out along `axis`: the range of the whole and what each
/// child that was laid out asks of the distribution.
pub fn layout_linear<Children: ChildrenStorage>(
    children: &Children,
    axis: Axis,
    must_fit: bool,
    total_avail_size: &Size,
) -> (r: Result<(LayoutSize, Vec<MinMaxFlex>), LayoutError>)
    ensures
        match linear_progress(
            children.children_spec(),
            axis,
            must_fit,
            *total_avail_size,
            children.children_spec().len() as int,
        ) {
            Ok(found) => r matches Ok((layout, inputs)) && layout == linear_range(
                axis,
                found,
                *total_avail_size,
            ) && inputs@ == found.inputs,
            Err(e) => r == Err::<(LayoutSize, Vec<MinMaxFlex>), LayoutError>(e),
        },
        r matches Ok((layout, inputs)) ==> layout.within(*total_avail_size) && sum_min(inputs@)
            <= axis.along(*total_avail_size) && inputs@.len() <= children.children_spec().len(),
{
    let n: usize = children.len();
    let mut avail_size = *total_avail_size;
    let mut min = Size::zero();
    let mut max = Size::zero();
    let mut flex_input_layouts: Vec<MinMaxFlex> = Vec::new();
    let mut stopped: bool = false;
    let mut i: usize = 0;
    while i < n && !stopped
        invariant
            n == children.children_spec().len(),
            0 <= i <= n,
            flex_input_layouts@.len() <= i,
            linear_progress(
                children.children_spec(),
                axis,
                must_fit,
                *total_avail_size,
                i as int,
            ) == Ok::<
                LinearProgress,
                LayoutError,
            >(
                LinearProgress {
                    stopped,
                    available: avail_size,
                    min,
                    max,
                    inputs: flex_input_layouts@,
                },
            ),
        decreases n - i,
    {
        let child = children.child(i).unwrap();
        let fitting = match child.get().layout(&avail_size) {
            Ok(layout) => if avail_size.contains(layout.fixed_size()) {
                Some(layout)
            } else {
                None
            },
            Err(LayoutError::InsufficientSpace) => None,
            Err(e) => {
                proof {
                    lemma_linear_error_stays(
                        children.children_spec(),
                        axis,
                        must_fit,
                        *total_avail_size,
                        i + 1,
                        n as int,
                    );
                }
                return Err(e);
            },
        };
        match fitting {
            None => {
                if must_fit {
                    proof {
                        lemma_linear_error_stays(
                            children.children_spec(),
                            axis,
                            must_fit,
                            *total_avail_size,
                            i + 1,
                            n as int,
                        );
                    }
                    return Err(LayoutError::InsufficientSpace);
                }
                stopped = true;
            },
            Some(layout) => {
                let fixed = layout.fixed_size();
                avail_size = axis.size_of(
                    axis.along_of(avail_size) - axis.along_of(fixed),
                    axis.across_of(avail_size),
                );
                min = axis.size_of(
                    add_or_max(axis.along_of(min), axis.along_of(fixed)),
                    max_usize(axis.across_of(min), axis.across_of(fixed)),
                );
                max = axis.size_of(
                    add_or_max(axis.along_of(max), axis.along_of(layout.max)),
                    max_usize(axis.across_of(max), axis.across_of(layout.max)),
                );
                flex_input_layouts.push(
                    MinMaxFlex::new(
                        axis.along_of(fixed),
                        axis.along_of(layout.max),
                        layout.flex,
                        layout.fit,
                    ),
                );
            },
        }
        i = i + 1;
    }
    proof {
        lemma_linear_stop_stays(children.children_spec(), axis, must_fit, *total_avail_size, i as int, n as int);
        lemma_linear_invariant(children.children_spec(), axis, must_fit, *total_avail_size, n as int);
    }
    let main: usize = if axis.along_of(max) < axis.along_of(*total_avail_size) {
        axis.along_of(max)
    } else {
        axis.along_of(*total_avail_size)
    };
    let layout = LayoutSize {
        min,
        max: axis.size_of(main, axis.across_of(max)),
        flex: 0,
        fit: FlexFit::Loose,
    };
    Ok((layout, flex_input_layouts))
}

/// The frames that the children laid out are rendered into when the row or
/// column is given `frame`: one after the other along the axis, each as
/// long as the distribution of the frame's extent says, each spanning the
/// frame across the axis. Fails exactly when the layout for the size of the
/// frame fails, and with its error.
pub fn frames_linear<Children: ChildrenStorage>(
    children: &Children,
    axis: Axis,
    must_fit: bool,
    frame: &Rect,
) -> (r: Result<Vec<Rect>, LayoutError>)
    ensures
        match linear_plan(children.children_spec(), axis, must_fit, *frame) {
            Ok(frames) => r matches Ok(found) && found@ == frames,
            Err(e) => r == Err::<Vec<Rect>, LayoutError>(e),
        },
        r matches Ok(frames) ==> frames@.len() <= children.children_spec().len() && forall|i: int|
            0 <= i < frames@.len() ==> frame.encloses(#[trigger] frames@[i]) || frame.right()
                > usize::MAX || frame.bottom() > usize::MAX,
{
    let inputs = match layout_linear(children, axis, must_fit, &frame.size) {
        Ok((_, inputs)) => inputs,
        Err(e) => {
            return Err(e);
        },
    };
    let space: usize = axis.along_of(frame.size);
    let sizes = match compute_flex_layout(space, &inputs) {
        Ok((_, sizes)) => sizes,
        Err(e) => {
            return Err(e);
        },
    };
    assert(sizes@ =~= linear_sizes(inputs@, space as int));
    let n: usize = sizes.len();
    let mut frames: Vec<Rect> = Vec::new();
    let mut walked: usize = 0;
    let mut i: usize = 0;
    while i < n
        invariant
            n == sizes@.len(),
            0 <= i <= n,
            sum_sizes(sizes@) <= space,
            space == axis.along(frame.size),
            walked == size_upto(sizes@, i as int),
            frames@.len() == i,
            forall|j: int|
                0 <= j < i ==> #[trigger] frames@[j] == linear_frame(
                    axis,
                    *frame,
                    size_upto(sizes@, j),
                    sizes@[j],
                ),
        decreases n - i,
    {
        proof {
            lemma_size_upto_monotonic(sizes@, i + 1, n as int);
        }
        frames.push(
            Rect::new(axis.shift(frame.origin, walked), axis.size_of(sizes[i], axis.across_of(frame.size))),
        );
        walked = walked + sizes[i];
        i = i + 1;
    }
    proof {
        assert forall|j: int| 0 <= j < frames@.len() implies frame.encloses(#[trigger] frames@[j])
            || frame.right() > usize::MAX || frame.bottom() > usize::MAX by {
            lemma_size_upto_bounds(sizes@, j, n as int);
            lemma_size_upto_monotonic(sizes@, j + 1, n as int);
        }
    }
    Ok(frames)
}

/// A longer prefix of a list of sizes sums to no less than a shorter one.
pub proof fn lemma_size_upto_monotonic(sizes: Seq<usize>, j: int, k: int)
    requires
        0 <= j <= k <= sizes.len(),
    ensures
        0 <= size_upto(sizes, j) <= size_upto(sizes, k),
    decreases k,
{
    if j < k {
        lemma_size_upto_monotonic(sizes, j, k - 1);
    } else if k > 0 {
        lemma_size_upto_monotonic(sizes, j - 1, k - 1);
    }
}

/// The first error among `results` is the last of them and is `result`;
/// where there is none, there are `n` results and `result` is `Ok`.
pub open spec fn first_error_ends(results: Seq<RenderResult>, n: nat, result: RenderResult) -> bool {
    &&& forall|j: int| 0 <= j < results.len() - 1 ==> #[trigger] results[j] is Ok
    &&& if results.len() > 0 && results.last() is Err {
        result == results.last()
    } else {
        result is Ok && results.len() == n
    }
}

/// `after` is what rendering `children` in turn into `frames` makes of
/// `before`: child after child is rendered into its frame, as
/// [`rendered_in_turn`] says, up to the first one that reports an error. That
/// error is `result`; where no child reports one, a child was rendered for
/// each frame and `result` is `Ok`.
pub open spec fn rendered_until_error<W: Widget>(
    before: RenderCtx,
    after: RenderCtx,
    frames: Seq<Rect>,
    children: Seq<W>,
    result: RenderResult,
) -> bool {
    exists|steps: Seq<RenderCtx>, results: Seq<RenderResult>|
        {
            &&& #[trigger] rendered_in_turn(steps, frames, children, results)
            &&& steps[0] == before
            &&& steps.last() == after
            &&& first_error_ends(results, frames.len(), result)
        }
}

/// Renders the children of a row or column into the frames that
/// [`frames_linear`] assigns. A child whose frame has no cell in the frame of
/// `ctx` is skipped. The first child whose render fails ends the render with
/// its error; where none fails, the render succeeds. Where the layout fails,
/// nothing is painted and its error is returned.
pub fn render_linear<Children: ChildrenStorage>(
    children: &Children,
    axis: Axis,
    must_fit: bool,
    ctx: &mut RenderCtx,
) -> (r: RenderResult)
    requires
        old(ctx).wf(),
    ensures
        final(ctx).confined(old(ctx)),
        linear_layout(children.children_spec(), axis, must_fit, old(ctx).frame().size) matches Err(e) ==> r
            == Err::<(), RenderError>(RenderError::Layout(e)) && final(ctx).canvas() == old(
            ctx,
        ).canvas() && final(ctx).placed() == old(ctx).placed(),
        linear_plan(children.children_spec(), axis, must_fit, old(ctx).frame()) matches Ok(plan) ==> {
            &&& final(ctx).placed_some_of(old(ctx), plan)
            &&& final(ctx).painted_where_placed(old(ctx))
            &&& r is Ok ==> final(ctx).placed_all_of(old(ctx), plan)
            &&& r is Err ==> final(ctx).last_child_rendered(old(ctx))
            &&& rendered_until_error(*old(ctx), *final(ctx), plan, children.children_spec(), r)
        },
{
    let frame = ctx.get_frame();
    let frames = match frames_linear(children, axis, must_fit, &frame) {
        Ok(frames) => frames,
        Err(e) => {
            return Err(RenderError::Layout(e));
        },
    };
    let n: usize = frames.len();
    let mut i: usize = 0;
    let ghost mut steps: Seq<RenderCtx> = seq![*ctx];
    let ghost mut results: Seq<RenderResult> = Seq::empty();
    while i < n
        invariant
            n == frames@.len(),
            n <= children.children_spec().len(),
            0 <= i <= n,
            ctx.confined(old(ctx)),
            frame == old(ctx).frame(),
            rendered_in_turn(steps, frames@, children.children_spec(), results),
            results.len() == i,
            steps[0] == *old(ctx),
            steps.last() == *ctx,
            forall|j: int| 0 <= j < i ==> #[trigger] results[j] is Ok,
            linear_layout(children.children_spec(), axis, must_fit, old(ctx).frame().size) is Ok,
            linear_plan(children.children_spec(), axis, must_fit, old(ctx).frame()) == Ok::<
                Seq<Rect>,
                LayoutError,
            >(frames@),
            ctx.placed() == old(ctx).placed() + frames@.take(i as int),
            ctx.painted_where_placed(old(ctx)),
        decreases n - i,
    {
        let child = children.child(i).unwrap();
        let ghost before = *ctx;
        let result = ctx.render_child(frames[i], child.get());
        proof {
            lemma_painted_where_placed(*old(ctx), before, *ctx, frames@[i as int]);
            assert(ctx.placed() =~= old(ctx).placed() + frames@.take(i + 1));
            lemma_rendered_next(steps, frames@, children.children_spec(), results, *ctx, result);
            steps = steps.push(*ctx);
            results = results.push(result);
        }
        match result {
            Err(e) => {
                return Err(e);
            },
            Ok(_) => {},
        }
        i = i + 1;
    }
    assert(frames@.take(n as int) =~= frames@);
    Ok(())
}

} // verus!
