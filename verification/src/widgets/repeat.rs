//! A child repeated until its frame is full.

use vstd::prelude::*;
use crate::geometry::{sub_or_zero, Point, Rect, Size};
use crate::layout::{LayoutError, LayoutResult, LayoutSize, RenderError, RenderResult};
use crate::render::{
    lemma_painted_where_placed, lemma_rendered_next, rendered_in_turn, RenderCtx,
};
use crate::widgets::{AnyEvent, Capability, EventResult, Widget};

verus! {

/// Tiles its frame with copies of its child, row by row.
pub struct Repeat<Child> {
    pub child: Child,
}

/// The size of one tile: the child's largest size, as far as the frame has
/// room for it.
pub open spec fn tile_size(layout: LayoutSize, frame: Size) -> Size {
    layout.max.meet(frame)
}

/// The top-left cell of the tile that starts where `left` columns and `top`
/// rows of `frame` are still free.
pub open spec fn tile_origin(frame: Rect, left: usize, top: usize) -> Point {
    Point {
        x: (frame.origin.x + (frame.size.width - left)) as usize,
        y: (frame.origin.y + (frame.size.height - top)) as usize,
    }
}

/// The frames of the tiles of one row, from where `left` columns of the
/// frame are still free, while `top` rows are free. Where less than a tile
/// is free and the child cannot do with what is free, the row ends.
pub open spec fn row_tiles<Child: Widget>(
    child: Child,
    frame: Rect,
    tile: Size,
    left: usize,
    top: usize,
) -> Seq<Rect>
    decreases left,
{
    if left == 0 || tile.width == 0 {
        Seq::empty()
    } else if (top < tile.height || left < tile.width) && child.layout_spec(
        Size { width: left, height: top },
    ) is Err {
        Seq::empty()
    } else {
        seq![Rect { origin: tile_origin(frame, left, top), size: tile }] + row_tiles(
            child,
            frame,
            tile,
            if left > tile.width {
                (left - tile.width) as usize
            } else {
                0
            },
            top,
        )
    }
}

/// The frames of all tiles from where `top` rows of the frame are still
/// free: row by row, each row as [`row_tiles`] says.
pub open spec fn all_tiles<Child: Widget>(child: Child, frame: Rect, tile: Size, top: usize) -> Seq<
    Rect,
>
    decreases top,
{
    if top == 0 || tile.height == 0 {
        Seq::empty()
    } else {
        row_tiles(child, frame, tile, frame.size.width, top) + all_tiles(
            child,
            frame,
            tile,
            if top > tile.height {
                (top - tile.height) as usize
            } else {
                0
            },
        )
    }
}

/// The error that ends the tiling of one row, from where `left` columns of
/// the frame are still free: where less than a tile is free and the child,
/// asked whether it can do with what is free, reports an error other than not
/// enough space. Not enough space only ends the row.
pub open spec fn row_fault<Child: Widget>(
    child: Child,
    tile: Size,
    left: usize,
    top: usize,
) -> Option<LayoutError>
    decreases left,
{
    let next = if left > tile.width {
        (left - tile.width) as usize
    } else {
        0
    };
    if left == 0 || tile.width == 0 {
        None
    } else if top < tile.height || left < tile.width {
        match child.layout_spec(Size { width: left, height: top }) {
            Err(LayoutError::InsufficientSpace) => None,
            Err(e) => Some(e),
            Ok(_) => row_fault(child, tile, next, top),
        }
    } else {
        row_fault(child, tile, next, top)
    }
}

/// The error that ends the tiling of a frame `width` columns wide, from
/// where `top` rows are still free: that of the first row that has one.
pub open spec fn tiling_fault<Child: Widget>(
    child: Child,
    width: usize,
    tile: Size,
    top: usize,
) -> Option<LayoutError>
    decreases top,
{
    if top == 0 || tile.height == 0 {
        None
    } else {
        match row_fault(child, tile, width, top) {
            Some(e) => Some(e),
            None => tiling_fault(
                child,
                width,
                tile,
                if top > tile.height {
                    (top - tile.height) as usize
                } else {
                    0
                },
            ),
        }
    }
}

/// The child as often as there are tiles: each tile shows the same child.
pub open spec fn copies<Child: Widget>(child: Child, n: nat) -> Seq<Child> {
    Seq::new(n, |k: int| child)
}

/// The first error among `results` is the last of them and is `result`.
/// Where there is none, `result` is the error that ends the tiling, if there
/// is one; else there are `n` results and `result` is `Ok`.
pub open spec fn tiling_ends(
    results: Seq<RenderResult>,
    n: nat,
    fault: Option<LayoutError>,
    result: RenderResult,
) -> bool {
    &&& forall|j: int| 0 <= j < results.len() - 1 ==> #[trigger] results[j] is Ok
    &&& if results.len() > 0 && results.last() is Err {
        result == results.last()
    } else {
        match fault {
            Some(e) => result == Err::<(), RenderError>(RenderError::Layout(e)),
            None => result is Ok && results.len() == n,
        }
    }
}

/// Where what was placed and what is still to be placed make up the plan,
/// what was placed is the first part of the plan.
pub proof fn lemma_placed_so_far(before: Seq<Rect>, plan: Seq<Rect>, placed: Seq<Rect>, rest: Seq<Rect>)
    requires
        before + plan == placed + rest,
        before.len() <= placed.len(),
    ensures
        placed.len() - before.len() <= plan.len(),
        placed == before + plan.take(placed.len() - before.len()),
{
    let whole = before + plan;
    assert(whole.len() == placed.len() + rest.len());
    let count = placed.len() - before.len();
    assert forall|i: int| 0 <= i < placed.len() implies placed[i] == (before + plan.take(count))[i] by {
        assert(whole[i] == (before + plan)[i]);
    }
}

impl<Child> Repeat<Child> {
    pub fn child(child: Child) -> (r: Self)
        ensures
            r.child == child,
    {
        Repeat { child }
    }
}

impl<Child: Widget> Repeat<Child> {
    /// The frames of the tiles that the child is rendered into when the
    /// widget is given `frame`, row by row: none where the child has not
    /// enough space in the frame or its largest size is empty.
    pub open spec fn tiles(&self, frame: Rect) -> Seq<Rect> {
        match self.child.layout_spec(frame.size) {
            Ok(layout) => if tile_size(layout, frame.size).empty() {
                Seq::empty()
            } else {
                all_tiles(self.child, frame, tile_size(layout, frame.size), frame.size.height)
            },
            Err(_) => Seq::empty(),
        }
    }

    /// The error that the child reports for the rest of a row or of the
    /// frame and that ends the tiling of `frame`, if there is one.
    pub open spec fn fault(&self, frame: Rect) -> Option<LayoutError> {
        match self.child.layout_spec(frame.size) {
            Ok(layout) => if tile_size(layout, frame.size).empty() {
                None
            } else {
                tiling_fault(
                    self.child,
                    frame.size.width,
                    tile_size(layout, frame.size),
                    frame.size.height,
                )
            },
            Err(_) => None,
        }
    }
}

impl<Child: Widget> Widget for Repeat<Child> {
    /// The child's range, with the maximum grown to all that is available.
    open spec fn layout_spec(&self, available: Size) -> LayoutResult {
        match self.child.layout_spec(available) {
            Ok(layout) => Ok(LayoutSize { max: layout.max.join(available), ..layout }),
            Err(e) => Err(e),
        }
    }

    open spec fn event_spec(&self, event: AnyEvent, size: Size) -> EventResult {
        self.child.event_spec(event, size)
    }

    open spec fn capability_spec(&self, capability: &Capability) -> bool {
        self.child.capability_spec(capability)
    }

    /// Renders the child once per tile, row by row from the top and in each
    /// row from the left. A tile has the child's largest size. Where less
    /// than a tile is left of a row or of the frame, the child is asked
    /// whether it can do with what is left: if so it is rendered there and
    /// cut off at the frame, if not the row ends early.
    ///
    /// Where the child has not enough space in the frame, nothing is painted
    /// and its error is returned; a child whose largest size is empty paints
    /// nothing, which is no error. Else the render fails only by the render of
    /// a tile, which ends it, or by an error other than not enough space that
    /// the child reports when it is asked about the rest of a row or of the
    /// frame.
    open spec fn render_spec(
        &self,
        before: RenderCtx,
        after: RenderCtx,
        r: RenderResult,
    ) -> bool {
        &&& (self.child.layout_spec(before.frame().size) matches Err(e) ==> r == Err::<
            (),
            RenderError,
        >(RenderError::Layout(e)) && after.canvas() == before.canvas())
        &&& (self.child.layout_spec(before.frame().size) matches Ok(layout) && tile_size(
            layout,
            before.frame().size,
        ).empty() ==> r is Ok && after.canvas() == before.canvas())
        &&& after.placed_some_of(&before, self.tiles(before.frame()))
        &&& after.painted_where_placed(&before)
        &&& r is Ok ==> after.placed_all_of(&before, self.tiles(before.frame()))
        &&& (self.child.layout_spec(before.frame().size) is Ok ==> {
            &&& self.fault(before.frame()) is Some ==> r is Err
            &&& r is Err ==> after.last_child_rendered(&before) || (self.fault(
                before.frame(),
            ) matches Some(e) && r == Err::<(), RenderError>(RenderError::Layout(e)))
        })
        &&& (self.child.layout_spec(before.frame().size) matches Ok(layout) && !tile_size(
            layout,
            before.frame().size,
        ).empty() ==> exists|steps: Seq<RenderCtx>, results: Seq<RenderResult>|
            {
                &&& #[trigger] rendered_in_turn(
                    steps,
                    self.tiles(before.frame()),
                    copies(self.child, self.tiles(before.frame()).len()),
                    results,
                )
                &&& steps[0] == before
                &&& steps.last() == after
                &&& tiling_ends(
                    results,
                    self.tiles(before.frame()).len(),
                    self.fault(before.frame()),
                    r,
                )
            })
    }

    proof fn lemma_layout_within(&self, available: Size) {
        self.child.lemma_layout_within(available);
    }

    fn event(&mut self, event: &AnyEvent, size: &Size) -> (r: EventResult) {
        self.child.event(event, size)
    }

    fn layout(&self, avail_size: &Size) -> (r: LayoutResult) {
        match self.child.layout(avail_size) {
            Ok(layout) => Ok(layout.max(layout.max.max(*avail_size))),
            Err(e) => Err(e),
        }
    }

    fn render(&self, ctx: &mut RenderCtx) -> (r: RenderResult) {
        let frame = ctx.get_frame();
        let layout = match self.child.layout(&frame.size) {
            Ok(layout) => layout,
            Err(e) => {
                return Err(RenderError::Layout(e));
            },
        };
        let tile = layout.max.min(frame.size);
        if tile.is_empty() {
            return Ok(());
        }
        let ghost plan = self.tiles(frame);
        let ghost fault = self.fault(frame);
        let ghost start = old(ctx).placed();
        let mut avail_height: usize = frame.size.height;
        let ghost mut steps: Seq<RenderCtx> = seq![*ctx];
        let ghost mut results: Seq<RenderResult> = Seq::empty();
        while avail_height > 0
            invariant
                rendered_in_turn(
                    steps,
                    plan,
                    copies(self.child, plan.len()),
                    results,
                ),
                results.len() == ctx.placed().len() - start.len(),
                steps[0] == *old(ctx),
                steps.last() == *ctx,
                forall|j: int| 0 <= j < results.len() ==> #[trigger] results[j] is Ok,
                ctx.confined(old(ctx)),
                frame == old(ctx).frame(),
                avail_height <= frame.size.height,
                tile.width > 0,
                tile.height > 0,
                start == old(ctx).placed(),
                self.child.layout_spec(old(ctx).frame().size) matches Ok(found) && !tile_size(
                    found,
                    old(ctx).frame().size,
                ).empty(),
                plan == self.tiles(old(ctx).frame()),
                fault == self.fault(old(ctx).frame()),
                fault == tiling_fault(self.child, frame.size.width, tile, avail_height),
                start.len() <= ctx.placed().len(),
                ctx.painted_where_placed(old(ctx)),
                start + plan == ctx.placed() + all_tiles(self.child, frame, tile, avail_height),
            decreases avail_height,
        {
            let ghost fault_below = tiling_fault(
                self.child,
                frame.size.width,
                tile,
                if avail_height > tile.height {
                    (avail_height - tile.height) as usize
                } else {
                    0
                },
            );
            let ghost below = all_tiles(
                self.child,
                frame,
                tile,
                if avail_height > tile.height {
                    (avail_height - tile.height) as usize
                } else {
                    0
                },
            );
            let mut avail_width: usize = frame.size.width;
            let mut row_ended: bool = false;
            while avail_width > 0 && !row_ended
                invariant
                    rendered_in_turn(
                        steps,
                        plan,
                        copies(self.child, plan.len()),
                        results,
                    ),
                    results.len() == ctx.placed().len() - start.len(),
                    steps[0] == *old(ctx),
                    steps.last() == *ctx,
                    forall|j: int| 0 <= j < results.len() ==> #[trigger] results[j] is Ok,
                    row_ended ==> row_tiles(self.child, frame, tile, avail_width, avail_height)
                        == Seq::<Rect>::empty(),
                    row_ended ==> row_fault(self.child, tile, avail_width, avail_height) is None,
                    fault == self.fault(old(ctx).frame()),
                    fault_below == tiling_fault(
                        self.child,
                        frame.size.width,
                        tile,
                        if avail_height > tile.height {
                            (avail_height - tile.height) as usize
                        } else {
                            0
                        },
                    ),
                    fault == match row_fault(self.child, tile, avail_width, avail_height) {
                        Some(e) => Some(e),
                        None => fault_below,
                    },
                    ctx.confined(old(ctx)),
                    frame == old(ctx).frame(),
                    0 < avail_height <= frame.size.height,
                    avail_width <= frame.size.width,
                    tile.width > 0,
                    tile.height > 0,
                    start == old(ctx).placed(),
                    self.child.layout_spec(old(ctx).frame().size) matches Ok(found) && !tile_size(
                        found,
                        old(ctx).frame().size,
                    ).empty(),
                    plan == self.tiles(old(ctx).frame()),
                    below == all_tiles(
                        self.child,
                        frame,
                        tile,
                        if avail_height > tile.height {
                            (avail_height - tile.height) as usize
                        } else {
                            0
                        },
                    ),
                    start.len() <= ctx.placed().len(),
                    ctx.painted_where_placed(old(ctx)),
                    start + plan == ctx.placed() + (row_tiles(
                        self.child,
                        frame,
                        tile,
                        avail_width,
                        avail_height,
                    ) + below),
                decreases avail_width, (if row_ended { 0int } else { 1int }),
            {
                if avail_height < tile.height || avail_width < tile.width {
                    match self.child.layout(&Size::new(avail_width, avail_height)) {
                        Err(LayoutError::InsufficientSpace) => {
                            row_ended = true;
                        },
                        Err(e) => {
                            proof {
                                lemma_placed_so_far(
                                    start,
                                    plan,
                                    ctx.placed(),
                                    row_tiles(self.child, frame, tile, avail_width, avail_height)
                                        + below,
                                );
                            }
                            return Err(RenderError::Layout(e));
                        },
                        Ok(_) => {},
                    }
                }
                if !row_ended {
                    let origin = Point::new(
                        frame.origin.x + (frame.size.width - avail_width),
                        frame.origin.y + (frame.size.height - avail_height),
                    );
                    let ghost before = *ctx;
                    let tile_frame = Rect::new(origin, tile);
                    let ghost next_width = if avail_width > tile.width {
                        (avail_width - tile.width) as usize
                    } else {
                        0usize
                    };
                    let ghost rest = row_tiles(self.child, frame, tile, next_width, avail_height);
                    let result = ctx.render_child(tile_frame, &self.child);
                    proof {
                        lemma_painted_where_placed(*old(ctx), before, *ctx, tile_frame);
                        assert(before.placed() + ((seq![tile_frame] + rest) + below) =~= ctx.placed()
                            + (rest + below));
                        let at = before.placed().len() as int;
                        assert((start + plan).len() == (ctx.placed() + (rest + below)).len());
                        assert((start + plan)[at] == (ctx.placed() + (rest + below))[at]);
                        assert(plan[at - start.len()] == tile_frame);
                        lemma_rendered_next(
                            steps,
                            plan,
                            copies(self.child, plan.len()),
                            results,
                            *ctx,
                            result,
                        );
                        steps = steps.push(*ctx);
                        results = results.push(result);
                    }
                    match result {
                        Err(e) => {
                            proof {
                                lemma_placed_so_far(start, plan, ctx.placed(), rest + below);
                            }
                            return Err(e);
                        },
                        Ok(_) => {},
                    }
                    avail_width = sub_or_zero(avail_width, tile.width);
                }
            }
            avail_height = sub_or_zero(avail_height, tile.height);
        }
        proof {
            lemma_placed_so_far(start, plan, ctx.placed(), Seq::<Rect>::empty());
        }
        Ok(())
    }

    fn has_capability(&self, capability: &Capability) -> (r: bool) {
        self.child.has_capability(capability)
    }
}

} // verus!
