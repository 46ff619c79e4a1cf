//! A child framed by up to four edges and four corners.

use vstd::prelude::*;
use crate::geometry::{Rect, SideOffsets, Size};
use crate::layout::{LayoutResult, RenderError, RenderResult};
use crate::render::{
    lemma_painted_where_placed, lemma_rendered_next, rendered_in_turn, RenderCtx,
};
use crate::style::Style;
use crate::widgets::fillchar::FillChar;
use crate::widgets::padding::{inset_available, inset_layout, layout_inset};
use crate::widgets::stack::Stack;
use crate::widgets::styled::Styled;
use crate::widgets::{AnyEvent, Capability, EventResult, Widget};

verus! {

/// Draws a border widget on each side that has one, and in each corner that
/// has one and whose two sides are present, around the child.
pub struct Borders<Border, Child> {
    pub top: Option<Border>,
    pub left: Option<Border>,
    pub right: Option<Border>,
    pub bottom: Option<Border>,
    pub top_left: Option<Border>,
    pub top_right: Option<Border>,
    pub bottom_left: Option<Border>,
    pub bottom_right: Option<Border>,
    pub child: Child,
}

/// Where the parts of a bordered widget are rendered.
#[derive(Debug, Clone, Copy, PartialEq, Eq, Structural)]
pub struct BorderFrames {
    pub top: Rect,
    pub left: Rect,
    pub right: Rect,
    pub bottom: Rect,
    pub top_left: Rect,
    pub top_right: Rect,
    pub bottom_left: Rect,
    pub bottom_right: Rect,
    pub child: Rect,
}

/// One cell for a side that is present, none for one that is not.
pub open spec fn edge(present: bool) -> usize {
    if present {
        1
    } else {
        0
    }
}

/// The frames of the parts when the whole is rendered into `frame` and
/// `edges` holds the thickness of each side, one cell or none. Each side is
/// a strip along its edge that leaves out the corners at its ends where the
/// adjoining sides are present; each corner is the single cell in its corner;
/// the child has the rest.
pub open spec fn border_frames(frame: Rect, edges: SideOffsets) -> BorderFrames {
    let w = (if frame.size.width > 0 { frame.size.width - 1 } else { 0 }) as usize;
    let h = (if frame.size.height > 0 { frame.size.height - 1 } else { 0 }) as usize;
    BorderFrames {
        top: frame.shrunk(SideOffsets { top: 0, right: edges.right, bottom: h, left: edges.left }),
        left: frame.shrunk(SideOffsets { top: edges.top, right: w, bottom: edges.bottom, left: 0 }),
        right: frame.shrunk(SideOffsets { top: edges.top, right: 0, bottom: edges.bottom, left: w }),
        bottom: frame.shrunk(
            SideOffsets { top: h, right: edges.right, bottom: 0, left: edges.left },
        ),
        top_left: frame.shrunk(SideOffsets { top: 0, right: w, bottom: h, left: 0 }),
        top_right: frame.shrunk(SideOffsets { top: 0, right: 0, bottom: h, left: w }),
        bottom_left: frame.shrunk(SideOffsets { top: h, right: w, bottom: 0, left: 0 }),
        bottom_right: frame.shrunk(SideOffsets { top: h, right: 0, bottom: 0, left: w }),
        child: frame.shrunk(edges),
    }
}

/// See [`border_frames`].
pub fn frames_for(frame: &Rect, edges: SideOffsets) -> (r: BorderFrames)
    ensures
        r == border_frames(*frame, edges),
{
    let w: usize = if frame.size.width > 0 { frame.size.width - 1 } else { 0 };
    let h: usize = if frame.size.height > 0 { frame.size.height - 1 } else { 0 };
    BorderFrames {
        top: frame.inset(SideOffsets::new(0, edges.right, h, edges.left)),
        left: frame.inset(SideOffsets::new(edges.top, w, edges.bottom, 0)),
        right: frame.inset(SideOffsets::new(edges.top, 0, edges.bottom, w)),
        bottom: frame.inset(SideOffsets::new(h, edges.right, 0, edges.left)),
        top_left: frame.inset(SideOffsets::new(0, w, h, 0)),
        top_right: frame.inset(SideOffsets::new(0, 0, h, w)),
        bottom_left: frame.inset(SideOffsets::new(h, w, 0, 0)),
        bottom_right: frame.inset(SideOffsets::new(h, 0, 0, w)),
        child: frame.inset(edges),
    }
}

impl Borders<Styled<FillChar>, ()> {
    /// No borders, around nothing yet.
    pub fn new() -> (r: Self)
        ensures
            r.edges() == (SideOffsets { top: 0, right: 0, bottom: 0, left: 0 }),
            r.top_left is None,
            r.top_right is None,
            r.bottom_left is None,
            r.bottom_right is None,
    {
        Borders {
            top: None,
            left: None,
            right: None,
            bottom: None,
            top_left: None,
            top_right: None,
            bottom_left: None,
            bottom_right: None,
            child: (),
        }
    }
}

impl<Border, Child> Borders<Border, Child> {
    /// The frames that the parts are rendered into when the whole takes
    /// `whole`, in the order of rendering.
    pub open spec fn plan(&self, whole: Rect) -> Seq<Rect> {
        framed_plan(
            self.top is Some,
            self.left is Some,
            self.right is Some,
            self.bottom is Some,
            self.top_left is Some,
            self.top_right is Some,
            self.bottom_left is Some,
            self.bottom_right is Some,
            border_frames(whole, self.edges()),
        )
    }

    /// Thickness of the border on each side: one cell where the side has a
    /// border widget, none where it has not.
    pub open spec fn edges(&self) -> SideOffsets {
        SideOffsets {
            top: edge(self.top is Some),
            right: edge(self.right is Some),
            bottom: edge(self.bottom is Some),
            left: edge(self.left is Some),
        }
    }

    /// See [`Borders::edges`].
    pub fn edge_offsets(&self) -> (r: SideOffsets)
        ensures
            r == self.edges(),
    {
        SideOffsets::new(
            if self.top.is_some() { 1 } else { 0 },
            if self.right.is_some() { 1 } else { 0 },
            if self.bottom.is_some() { 1 } else { 0 },
            if self.left.is_some() { 1 } else { 0 },
        )
    }
}

impl<Border: Widget, Child: Widget> Borders<Border, Child> {
    /// No borders, around `child`.
    pub fn with_child(child: Child) -> (r: Self)
        ensures
            r.child == child,
            r.edges() == (SideOffsets { top: 0, right: 0, bottom: 0, left: 0 }),
            r.top_left is None,
            r.top_right is None,
            r.bottom_left is None,
            r.bottom_right is None,
    {
        Borders {
            top: None,
            left: None,
            right: None,
            bottom: None,
            top_left: None,
            top_right: None,
            bottom_left: None,
            bottom_right: None,
            child,
        }
    }

    /// The same borders around `child`.
    pub fn child<Child2: Widget>(self, child: Child2) -> (r: Borders<Border, Child2>)
        ensures
            r.child == child,
            r.top == self.top,
            r.left == self.left,
            r.right == self.right,
            r.bottom == self.bottom,
            r.top_left == self.top_left,
            r.top_right == self.top_right,
            r.bottom_left == self.bottom_left,
            r.bottom_right == self.bottom_right,
    {
        Borders {
            top: self.top,
            left: self.left,
            right: self.right,
            bottom: self.bottom,
            top_left: self.top_left,
            top_right: self.top_right,
            bottom_left: self.bottom_left,
            bottom_right: self.bottom_right,
            child,
        }
    }

    pub fn top(self, border: Border) -> (r: Self)
        ensures
            r == (Borders { top: Some(border), ..self }),
    {
        Borders {
            top: Some(border),
            left: self.left,
            right: self.right,
            bottom: self.bottom,
            top_left: self.top_left,
            top_right: self.top_right,
            bottom_left: self.bottom_left,
            bottom_right: self.bottom_right,
            child: self.child,
        }
    }

    pub fn left(self, border: Border) -> (r: Self)
        ensures
            r == (Borders { left: Some(border), ..self }),
    {
        Borders {
            top: self.top,
            left: Some(border),
            right: self.right,
            bottom: self.bottom,
            top_left: self.top_left,
            top_right: self.top_right,
            bottom_left: self.bottom_left,
            bottom_right: self.bottom_right,
            child: self.child,
        }
    }

    pub fn right(self, border: Border) -> (r: Self)
        ensures
            r == (Borders { right: Some(border), ..self }),
    {
        Borders {
            top: self.top,
            left: self.left,
            right: Some(border),
            bottom: self.bottom,
            top_left: self.top_left,
            top_right: self.top_right,
            bottom_left: self.bottom_left,
            bottom_right: self.bottom_right,
            child: self.child,
        }
    }

    pub fn bottom(self, border: Border) -> (r: Self)
        ensures
            r == (Borders { bottom: Some(border), ..self }),
    {
        Borders {
            top: self.top,
            left: self.left,
            right: self.right,
            bottom: Some(border),
            top_left: self.top_left,
            top_right: self.top_right,
            bottom_left: self.bottom_left,
            bottom_right: self.bottom_right,
            child: self.child,
        }
    }

    pub fn top_left(self, border: Border) -> (r: Self)
        ensures
            r == (Borders { top_left: Some(border), ..self }),
    {
        Borders {
            top: self.top,
            left: self.left,
            right: self.right,
            bottom: self.bottom,
            top_left: Some(border),
            top_right: self.top_right,
            bottom_left: self.bottom_left,
            bottom_right: self.bottom_right,
            child: self.child,
        }
    }

    pub fn top_right(self, border: Border) -> (r: Self)
        ensures
            r == (Borders { top_right: Some(border), ..self }),
    {
        Borders {
            top: self.top,
            left: self.left,
            right: self.right,
            bottom: self.bottom,
            top_left: self.top_left,
            top_right: Some(border),
            bottom_left: self.bottom_left,
            bottom_right: self.bottom_right,
            child: self.child,
        }
    }

    pub fn bottom_left(self, border: Border) -> (r: Self)
        ensures
            r == (Borders { bottom_left: Some(border), ..self }),
    {
        Borders {
            top: self.top,
            left: self.left,
            right: self.right,
            bottom: self.bottom,
            top_left: self.top_left,
            top_right: self.top_right,
            bottom_left: Some(border),
            bottom_right: self.bottom_right,
            child: self.child,
        }
    }

    pub fn bottom_right(self, border: Border) -> (r: Self)
        ensures
            r == (Borders { bottom_right: Some(border), ..self }),
    {
        Borders {
            top: self.top,
            left: self.left,
            right: self.right,
            bottom: self.bottom,
            top_left: self.top_left,
            top_right: self.top_right,
            bottom_left: self.bottom_left,
            bottom_right: Some(border),
            child: self.child,
        }
    }
}

/// One part of a bordered widget: whether it is rendered, and where.
pub struct BorderPart {
    pub present: bool,
    pub frame: Rect,
}

/// The frames of those among the first `k` parts that are rendered.
pub open spec fn kept(parts: Seq<BorderPart>, k: int) -> Seq<Rect>
    decreases k,
{
    if k <= 0 {
        Seq::empty()
    } else if parts[k - 1].present {
        kept(parts, k - 1).push(parts[k - 1].frame)
    } else {
        kept(parts, k - 1)
    }
}

/// The borders of a bordered widget in the order of rendering: the four
/// sides, then the four corners. A side is rendered if it is there, a corner
/// if it is there and its two sides are there too. Which parts are there is
/// told by the flags.
pub open spec fn border_parts(
    top: bool,
    left: bool,
    right: bool,
    bottom: bool,
    top_left: bool,
    top_right: bool,
    bottom_left: bool,
    bottom_right: bool,
    frames: BorderFrames,
) -> Seq<BorderPart> {
    seq![
        BorderPart { present: top, frame: frames.top },
        BorderPart { present: left, frame: frames.left },
        BorderPart { present: right, frame: frames.right },
        BorderPart { present: bottom, frame: frames.bottom },
        BorderPart { present: top && left && top_left, frame: frames.top_left },
        BorderPart { present: top && right && top_right, frame: frames.top_right },
        BorderPart { present: bottom && left && bottom_left, frame: frames.bottom_left },
        BorderPart { present: bottom && right && bottom_right, frame: frames.bottom_right },
    ]
}

/// The frames that the parts of a bordered widget are rendered into, in the
/// order of rendering: the borders that are rendered, then the child.
pub open spec fn framed_plan(
    top: bool,
    left: bool,
    right: bool,
    bottom: bool,
    top_left: bool,
    top_right: bool,
    bottom_left: bool,
    bottom_right: bool,
    frames: BorderFrames,
) -> Seq<Rect> {
    kept(
        border_parts(
            top,
            left,
            right,
            bottom,
            top_left,
            top_right,
            bottom_left,
            bottom_right,
            frames,
        ),
        8,
    ).push(frames.child)
}

/// The frames kept among fewer parts are the first of those kept among more.
pub proof fn lemma_kept_prefix(parts: Seq<BorderPart>, j: int, k: int)
    requires
        0 <= j <= k,
    ensures
        kept(parts, j).len() <= kept(parts, k).len(),
        kept(parts, k).take(kept(parts, j).len() as int) == kept(parts, j),
    decreases k,
{
    if j < k {
        lemma_kept_prefix(parts, j, k - 1);
    }
}

/// The border widgets in the order of rendering: the four sides, then the
/// four corners. A border that is not rendered is `None`: a side that is not
/// there, or a corner that is not there or lacks one of its two sides.
pub open spec fn borders_in_order<Border>(
    top: Option<Border>,
    left: Option<Border>,
    right: Option<Border>,
    bottom: Option<Border>,
    top_left: Option<Border>,
    top_right: Option<Border>,
    bottom_left: Option<Border>,
    bottom_right: Option<Border>,
) -> Seq<Option<Border>> {
    seq![
        top,
        left,
        right,
        bottom,
        if top is Some && left is Some {
            top_left
        } else {
            None
        },
        if top is Some && right is Some {
            top_right
        } else {
            None
        },
        if bottom is Some && left is Some {
            bottom_left
        } else {
            None
        },
        if bottom is Some && right is Some {
            bottom_right
        } else {
            None
        },
    ]
}

/// Those among the first `k` borders that are rendered.
pub open spec fn shown<Border>(borders: Seq<Option<Border>>, k: int) -> Seq<Border>
    decreases k,
{
    if k <= 0 {
        Seq::empty()
    } else {
        match borders[k - 1] {
            Some(border) => shown(borders, k - 1).push(border),
            None => shown(borders, k - 1),
        }
    }
}

/// The borders shown among fewer are the first of those shown among more.
pub proof fn lemma_shown_prefix<Border>(borders: Seq<Option<Border>>, j: int, k: int)
    requires
        0 <= j <= k,
    ensures
        shown(borders, j).len() <= shown(borders, k).len(),
        shown(borders, k).take(shown(borders, j).len() as int) == shown(borders, j),
    decreases k,
{
    if j < k {
        lemma_shown_prefix(borders, j, k - 1);
    }
}

/// `after` is what rendering a bordered widget makes of `before`. `plan`
/// holds the frames of the borders that are rendered and, last, the frame of
/// the child. Border after border is rendered into its frame, as
/// [`rendered_in_turn`] says, up to the first one that reports an error: that
/// error is `result`. Where no border reports one, the child is rendered into
/// its frame on top of the borders, and `result` is what it reports.
pub open spec fn framed_in_turn<Border: Widget, Child: Widget>(
    before: RenderCtx,
    after: RenderCtx,
    borders: Seq<Option<Border>>,
    plan: Seq<Rect>,
    child: Child,
    result: RenderResult,
) -> bool {
    exists|steps: Seq<RenderCtx>, results: Seq<RenderResult>|
        {
            &&& #[trigger] rendered_in_turn(steps, plan.drop_last(), shown(borders, 8), results)
            &&& steps[0] == before
            &&& forall|j: int| 0 <= j < results.len() - 1 ==> #[trigger] results[j] is Ok
            &&& if results.len() > 0 && results.last() is Err {
                result == results.last() && steps.last() == after
            } else {
                results.len() == shown(borders, 8).len() && after.rendered(
                    &steps.last(),
                    plan.last(),
                    &child,
                    result,
                )
            }
        }
}

/// Renders borders and child into `whole`: the sides that are there first,
/// then the corners that are there and whose two sides are there, then the
/// child in what the sides leave. A part whose frame has no cell in the frame
/// of `ctx` is skipped. The first part whose render fails ends the render, and
/// its error is returned; where no part fails, or none is rendered at all, the
/// render succeeds.
pub fn render_framed<Border: Widget, Child: Widget>(
    top: &Option<Border>,
    left: &Option<Border>,
    right: &Option<Border>,
    bottom: &Option<Border>,
    top_left: &Option<Border>,
    top_right: &Option<Border>,
    bottom_left: &Option<Border>,
    bottom_right: &Option<Border>,
    child: &Child,
    whole: &Rect,
    ctx: &mut RenderCtx,
) -> (r: RenderResult)
    requires
        old(ctx).wf(),
    ensures
        final(ctx).confined(old(ctx)),
        ({
            let plan = framed_plan(
                top is Some,
                left is Some,
                right is Some,
                bottom is Some,
                top_left is Some,
                top_right is Some,
                bottom_left is Some,
                bottom_right is Some,
                border_frames(
                    *whole,
                    SideOffsets {
                        top: edge(top is Some),
                        right: edge(right is Some),
                        bottom: edge(bottom is Some),
                        left: edge(left is Some),
                    },
                ),
            );
            &&& final(ctx).placed_some_of(old(ctx), plan)
            &&& final(ctx).painted_where_placed(old(ctx))
            &&& r is Ok ==> final(ctx).placed_all_of(old(ctx), plan)
            &&& r is Err ==> final(ctx).last_child_rendered(old(ctx))
            &&& old(ctx).skips_all(plan) ==> r is Ok
            &&& framed_in_turn(
                *old(ctx),
                *final(ctx),
                borders_in_order(
                    *top,
                    *left,
                    *right,
                    *bottom,
                    *top_left,
                    *top_right,
                    *bottom_left,
                    *bottom_right,
                ),
                plan,
                *child,
                r,
            )
        }),
{
    let edges = SideOffsets::new(
        if top.is_some() { 1 } else { 0 },
        if right.is_some() { 1 } else { 0 },
        if bottom.is_some() { 1 } else { 0 },
        if left.is_some() { 1 } else { 0 },
    );
    let frames = frames_for(whole, edges);
    let none: Option<&Border> = None;
    let mut borders: Vec<(Option<&Border>, Rect)> = Vec::new();
    borders.push((top.as_ref(), frames.top));
    borders.push((left.as_ref(), frames.left));
    borders.push((right.as_ref(), frames.right));
    borders.push((bottom.as_ref(), frames.bottom));
    borders.push(
        (if top.is_some() && left.is_some() { top_left.as_ref() } else { none }, frames.top_left),
    );
    borders.push(
        (if top.is_some() && right.is_some() { top_right.as_ref() } else { none }, frames.top_right),
    );
    borders.push(
        (
            if bottom.is_some() && left.is_some() { bottom_left.as_ref() } else { none },
            frames.bottom_left,
        ),
    );
    borders.push(
        (
            if bottom.is_some() && right.is_some() { bottom_right.as_ref() } else { none },
            frames.bottom_right,
        ),
    );
    let ghost parts = border_parts(
        top is Some,
        left is Some,
        right is Some,
        bottom is Some,
        top_left is Some,
        top_right is Some,
        bottom_left is Some,
        bottom_right is Some,
        frames,
    );
    let ghost plan = kept(parts, 8).push(frames.child);
    let ghost order = borders_in_order(
        *top,
        *left,
        *right,
        *bottom,
        *top_left,
        *top_right,
        *bottom_left,
        *bottom_right,
    );
    let ghost mut steps: Seq<RenderCtx> = seq![*ctx];
    let ghost mut results: Seq<RenderResult> = Seq::empty();
    assert(plan.drop_last() =~= kept(parts, 8));
    let mut i: usize = 0;
    while i < 8
        invariant
            0 <= i <= 8,
            borders@.len() == 8,
            parts.len() == 8,
            order == borders_in_order(
                *top,
                *left,
                *right,
                *bottom,
                *top_left,
                *top_right,
                *bottom_left,
                *bottom_right,
            ),
            forall|k: int|
                0 <= k < 8 ==> match (#[trigger] borders@[k]).0 {
                    Some(border) => order[k] == Some(*border),
                    None => order[k] is None,
                },
            plan.drop_last() == kept(parts, 8),
            plan.last() == frames.child,
            rendered_in_turn(steps, kept(parts, 8), shown(order, 8), results),
            results.len() == kept(parts, i as int).len(),
            results.len() == shown(order, i as int).len(),
            steps[0] == *old(ctx),
            steps.last() == *ctx,
            forall|j: int| 0 <= j < results.len() ==> #[trigger] results[j] is Ok,
            forall|k: int|
                0 <= k < 8 ==> (#[trigger] borders@[k]).0 is Some == parts[k].present && borders@[k].1
                    == parts[k].frame,
            plan == kept(parts, 8).push(frames.child),
            plan == framed_plan(
                top is Some,
                left is Some,
                right is Some,
                bottom is Some,
                top_left is Some,
                top_right is Some,
                bottom_left is Some,
                bottom_right is Some,
                border_frames(
                    *whole,
                    SideOffsets {
                        top: edge(top is Some),
                        right: edge(right is Some),
                        bottom: edge(bottom is Some),
                        left: edge(left is Some),
                    },
                ),
            ),
            ctx.confined(old(ctx)),
            ctx.placed() == old(ctx).placed() + kept(parts, i as int),
            ctx.painted_where_placed(old(ctx)),
        decreases 8 - i,
    {
        let (border, frame) = borders[i];
        match border {
            Some(border) => {
                let ghost before = *ctx;
                let result = ctx.render_child(frame, border);
                proof {
                    lemma_painted_where_placed(*old(ctx), before, *ctx, frame);
                    lemma_kept_prefix(parts, i + 1, 8);
                    lemma_shown_prefix(order, i + 1, 8);
                    let at = results.len() as int;
                    assert(kept(parts, 8).take(at + 1)[at] == frame);
                    assert(shown(order, 8).take(at + 1)[at] == *border);
                    lemma_rendered_next(steps, kept(parts, 8), shown(order, 8), results, *ctx, result);
                    steps = steps.push(*ctx);
                    results = results.push(result);
                }
                match result {
                    Err(e) => {
                        proof {
                            lemma_kept_prefix(parts, i + 1, 8);
                            let count = kept(parts, i + 1).len() as int;
                            assert(plan.take(count) =~= kept(parts, 8).take(count));
                            assert(rendered_in_turn(steps, plan.drop_last(), shown(order, 8), results));
                        }
                        return Err(e);
                    },
                    Ok(_) => {},
                }
            },
            None => {},
        }
        i = i + 1;
    }
    let ghost before = *ctx;
    let result = ctx.render_child(frames.child, child);
    proof {
        lemma_painted_where_placed(*old(ctx), before, *ctx, frames.child);
        assert(plan.take(plan.len() as int) =~= plan);
        assert(ctx.placed().last() == frames.child);
    }
    result
}

/// The part is a character in a style.
pub open spec fn is_glyph(part: Option<Styled<FillChar>>, style: Style, glyph: char) -> bool {
    part matches Some(border) && border.style == style && border.child.glyph() == glyph
}

impl<Child: Widget> Borders<Styled<FillChar>, Child> {
    /// All four sides and all four corners are the given characters, drawn
    /// in `style`.
    pub open spec fn drawn_with(
        &self,
        style: Style,
        horizontal: char,
        vertical: char,
        top_left: char,
        top_right: char,
        bottom_left: char,
        bottom_right: char,
    ) -> bool {
        &&& is_glyph(self.top, style, horizontal)
        &&& is_glyph(self.bottom, style, horizontal)
        &&& is_glyph(self.left, style, vertical)
        &&& is_glyph(self.right, style, vertical)
        &&& is_glyph(self.top_left, style, top_left)
        &&& is_glyph(self.top_right, style, top_right)
        &&& is_glyph(self.bottom_left, style, bottom_left)
        &&& is_glyph(self.bottom_right, style, bottom_right)
    }

    /// Replaces all eight parts by characters drawn in `style`.
    pub fn borders_of(
        self,
        style: Style,
        horizontal: char,
        vertical: char,
        top_left: char,
        top_right: char,
        bottom_left: char,
        bottom_right: char,
    ) -> (r: Self)
        ensures
            r.child == self.child,
            r.drawn_with(
                style,
                horizontal,
                vertical,
                top_left,
                top_right,
                bottom_left,
                bottom_right,
            ),
    {
        Borders {
            top: Some(style.child(FillChar::new(horizontal))),
            left: Some(style.child(FillChar::new(vertical))),
            right: Some(style.child(FillChar::new(vertical))),
            bottom: Some(style.child(FillChar::new(horizontal))),
            top_left: Some(style.child(FillChar::new(top_left))),
            top_right: Some(style.child(FillChar::new(top_right))),
            bottom_left: Some(style.child(FillChar::new(bottom_left))),
            bottom_right: Some(style.child(FillChar::new(bottom_right))),
            child: self.child,
        }
    }

    /// Single lines with square corners.
    pub fn borders_line(self, style: Style) -> (r: Self)
        ensures
            r.child == self.child,
            r.drawn_with(style, '─', '│', '┌', '┐', '└', '┘'),
    {
        self.borders_of(style, '─', '│', '┌', '┐', '└', '┘')
    }

    /// Double lines.
    pub fn borders_double(self, style: Style) -> (r: Self)
        ensures
            r.child == self.child,
            r.drawn_with(style, '═', '║', '╔', '╗', '╚', '╝'),
    {
        self.borders_of(style, '═', '║', '╔', '╗', '╚', '╝')
    }

    /// Dashes and bars with a plus sign in each corner.
    pub fn borders_cross(self, style: Style) -> (r: Self)
        ensures
            r.child == self.child,
            r.drawn_with(style, '-', '|', '+', '+', '+', '+'),
    {
        self.borders_of(style, '-', '|', '+', '+', '+', '+')
    }

    /// Dashes and bars with square corners.
    pub fn borders_dash(self, style: Style) -> (r: Self)
        ensures
            r.child == self.child,
            r.drawn_with(style, '-', '|', '┌', '┐', '└', '┘'),
    {
        self.borders_of(style, '-', '|', '┌', '┐', '└', '┘')
    }

    /// Single lines with rounded corners.
    pub fn borders_rounded(self, style: Style) -> (r: Self)
        ensures
            r.child == self.child,
            r.drawn_with(style, '─', '│', '╭', '╮', '╰', '╯'),
    {
        self.borders_of(style, '─', '│', '╭', '╮', '╰', '╯')
    }
}

impl<Border: Widget, Child: Widget> Borders<Stack<Vec<Border>>, Child> {
    /// Puts `border` on top of what the top side shows already.
    pub fn top_overlay(self, border: Border) -> (r: Self)
        ensures
            r.top matches Some(stack) && stack.children@ == (match self.top {
                Some(before) => before.children@,
                None => Seq::empty(),
            }).push(border),
            r.top matches Some(stack) && stack.must_fit_all_children == (match self.top {
                Some(before) => before.must_fit_all_children,
                None => true,
            }),
            r.left == self.left,
            r.right == self.right,
            r.bottom == self.bottom,
            r.top_left == self.top_left,
            r.top_right == self.top_right,
            r.bottom_left == self.bottom_left,
            r.bottom_right == self.bottom_right,
            r.child == self.child,
    {
        let top = match self.top {
            None => Stack::new().child(border),
            Some(before) => before.child(border),
        };
        Borders {
            top: Some(top),
            left: self.left,
            right: self.right,
            bottom: self.bottom,
            top_left: self.top_left,
            top_right: self.top_right,
            bottom_left: self.bottom_left,
            bottom_right: self.bottom_right,
            child: self.child,
        }
    }
}

impl<Border: Widget, Child: Widget> Widget for Borders<Border, Child> {
    /// The child's range for what is left inside the borders, enlarged by
    /// one cell for each side that has a border.
    open spec fn layout_spec(&self, available: Size) -> LayoutResult {
        inset_layout(
            self.edges(),
            available,
            self.child.layout_spec(inset_available(self.edges(), available)),
        )
    }

    open spec fn event_spec(&self, event: AnyEvent, size: Size) -> EventResult {
        self.child.event_spec(event, size)
    }

    open spec fn capability_spec(&self, capability: &Capability) -> bool {
        self.child.capability_spec(capability)
    }

    /// Renders the borders and the child. The whole takes the largest size
    /// that the layout reports for the frame, anchored at the top-left cell of
    /// the frame. The sides are painted first, then the corners, then the
    /// child; the first part whose render fails ends the render with its error.
    /// Where the layout fails, nothing is painted and its error is returned.
    open spec fn render_spec(
        &self,
        before: RenderCtx,
        after: RenderCtx,
        r: RenderResult,
    ) -> bool {
        &&& (self.layout_spec(before.frame().size) matches Err(e) ==> {
            &&& r == Err::<(), RenderError>(RenderError::Layout(e))
            &&& after.canvas() == before.canvas()
            &&& after.placed() == before.placed()
        })
        &&& (self.layout_spec(before.frame().size) matches Ok(layout) ==> ({
            let plan = self.plan(
                Rect {
                    origin: before.frame().origin,
                    size: layout.max.meet(before.frame().size),
                },
            );
            &&& after.placed_some_of(&before, plan)
            &&& after.painted_where_placed(&before)
            &&& r is Ok ==> after.placed_all_of(&before, plan)
            &&& r is Err ==> after.last_child_rendered(&before)
            &&& before.skips_all(plan) ==> r is Ok
            &&& framed_in_turn(before, after, borders_in_order(
                self.top,
                self.left,
                self.right,
                self.bottom,
                self.top_left,
                self.top_right,
                self.bottom_left,
                self.bottom_right,
            ), plan, self.child, r)
        }))
    }

    proof fn lemma_layout_within(&self, available: Size) {
        self.child.lemma_layout_within(inset_available(self.edges(), available));
    }

    fn event(&mut self, event: &AnyEvent, size: &Size) -> (r: EventResult)
        ensures
            final(self).top == old(self).top,
            final(self).left == old(self).left,
            final(self).right == old(self).right,
            final(self).bottom == old(self).bottom,
            final(self).top_left == old(self).top_left,
            final(self).top_right == old(self).top_right,
            final(self).bottom_left == old(self).bottom_left,
            final(self).bottom_right == old(self).bottom_right,
    {
        self.child.event(event, size)
    }

    fn layout(&self, avail_size: &Size) -> (r: LayoutResult) {
        layout_inset(&self.edge_offsets(), &self.child, avail_size)
    }

    fn render(&self, ctx: &mut RenderCtx) -> (r: RenderResult) {
        let frame = ctx.get_frame();
        let layout = match self.layout(&frame.size) {
            Ok(layout) => layout,
            Err(e) => {
                return Err(RenderError::Layout(e));
            },
        };
        let whole = Rect::new(frame.origin, layout.max.min(frame.size));
        render_framed(
            &self.top,
            &self.left,
            &self.right,
            &self.bottom,
            &self.top_left,
            &self.top_right,
            &self.bottom_left,
            &self.bottom_right,
            &self.child,
            &whole,
            ctx,
        )
    }

    fn has_capability(&self, capability: &Capability) -> (r: bool) {
        self.child.has_capability(capability)
    }
}

/// With a border on all four sides the reported minimum and maximum are
/// those of the child, laid out in what the borders leave, plus two cells on
/// each axis.
pub proof fn lemma_four_edges_add_two<Border: Widget, Child: Widget>(
    borders: Borders<Border, Child>,
    available: Size,
)
    requires
        borders.top is Some,
        borders.left is Some,
        borders.right is Some,
        borders.bottom is Some,
        available.width >= 2,
        available.height >= 2,
        borders.child.layout_spec(
            Size { width: (available.width - 2) as usize, height: (available.height - 2) as usize },
        ) is Ok,
    ensures
        borders.layout_spec(available) is Ok,
        ({
            let outer = borders.layout_spec(available).unwrap();
            let inner = borders.child.layout_spec(
                Size {
                    width: (available.width - 2) as usize,
                    height: (available.height - 2) as usize,
                },
            ).unwrap();
            &&& outer.min.width == inner.min.width + 2
            &&& outer.min.height == inner.min.height + 2
            &&& outer.max.width == inner.max.width + 2
            &&& outer.max.height == inner.max.height + 2
            &&& outer.flex == inner.flex
            &&& outer.fit == inner.fit
        }),
{
    borders.child.lemma_layout_within(inset_available(borders.edges(), available));
}

/// Without a border on any side the widget reports exactly what its child
/// reports.
pub proof fn lemma_no_edges_is_transparent<Border: Widget, Child: Widget>(
    borders: Borders<Border, Child>,
    available: Size,
)
    requires
        borders.top is None,
        borders.left is None,
        borders.right is None,
        borders.bottom is None,
    ensures
        borders.layout_spec(available) == borders.child.layout_spec(available),
{
}

} // verus!
