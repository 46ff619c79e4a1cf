//! The renderer paints into the part of the canvas that the widget at hand
//! may use, its frame; the render context hands each child a frame cut out
//! of its parent's.

use vstd::prelude::*;
use vstd::string::StrSliceExecFns;
use crate::canvas::{Canvas, Cell, Instruction};
use crate::geometry::{min_int, min_usize, Point, Rect, Size};
use crate::layout::RenderResult;
use crate::style::{Attributes, Color};
use crate::util::Immutable;
use crate::widgets::Widget;

verus! {

/// A canvas together with the frame that painting is confined to and a
/// cursor at which text is written.
pub struct Renderer {
    frame: Rect,
    frame_cursor: Point,
    alternate: bool,
    canvas: Canvas,
}

impl Renderer {
    /// The rectangle that may be painted into, in canvas coordinates.
    pub closed spec fn frame(&self) -> Rect {
        self.frame
    }

    /// Where the next text is written.
    pub closed spec fn cursor(&self) -> Point {
        self.frame_cursor
    }

    /// The canvas painted into.
    pub closed spec fn canvas(&self) -> Canvas {
        self.canvas
    }

    /// Whether the renderer owns the whole screen.
    pub closed spec fn alternate(&self) -> bool {
        self.alternate
    }

    /// The whole canvas as a rectangle.
    pub open spec fn base_frame(&self) -> Rect {
        Rect { origin: Point { x: 0, y: 0 }, size: self.canvas().size() }
    }

    /// The frame is a non-empty part of the canvas and the cursor is in the
    /// frame or on its right or lower edge.
    pub open spec fn wf(&self) -> bool {
        &&& self.canvas().wf()
        &&& !self.frame().empty()
        &&& self.base_frame().encloses(self.frame())
        &&& self.frame().origin.x <= self.cursor().x <= self.frame().right()
        &&& self.frame().origin.y <= self.cursor().y <= self.frame().bottom()
    }

    /// A renderer for a screen of the given size, framed on all of it, or
    /// `None` where the size has no cells or more than a buffer can hold.
    pub fn new(size: Size, alternate: bool) -> (r: Option<Renderer>)
        ensures
            r is Some <==> 0 < size.area() <= usize::MAX,
            r matches Some(renderer) ==> {
                &&& renderer.wf()
                &&& renderer.frame() == (Rect { origin: Point { x: 0, y: 0 }, size })
                &&& renderer.cursor() == (Point { x: 0, y: 0 })
                &&& renderer.alternate() == alternate
                &&& renderer.canvas().size() == size
                &&& renderer.canvas().draw() == crate::canvas::blank_cells(size.area() as nat)
                &&& renderer.canvas().active() == crate::canvas::blank_cells(size.area() as nat)
                &&& !renderer.canvas().forced()
            },
    {
        match Canvas::new(size) {
            Some(canvas) => Some(
                Renderer {
                    frame: Rect::from_size(size),
                    frame_cursor: Point::zero(),
                    alternate,
                    canvas,
                },
            ),
            None => None,
        }
    }

    /// Gives the screen a new size and frames the renderer on all of it.
    /// The next flush paints every cell. A size without cells is rejected
    /// and leaves the renderer as it was.
    pub fn resize(&mut self, cols: usize, rows: usize) -> (accepted: bool)
        requires
            old(self).wf(),
        ensures
            final(self).wf(),
            accepted <==> 0 < cols * rows <= usize::MAX,
            accepted ==> {
                &&& final(self).frame() == (Rect {
                    origin: Point { x: 0, y: 0 },
                    size: Size { width: cols, height: rows },
                })
                &&& final(self).cursor() == (Point { x: 0, y: 0 })
                &&& final(self).canvas().size() == (Size { width: cols, height: rows })
                &&& final(self).canvas().forced()
                &&& final(self).alternate() == old(self).alternate()
            },
            !accepted ==> *final(self) == *old(self),
    {
        let size = Size::new(cols, rows);
        if self.canvas.resize(size) {
            self.frame = Rect::from_size(size);
            self.frame_cursor = Point::zero();
            true
        } else {
            false
        }
    }

    pub fn get_frame(&self) -> (r: Rect)
        ensures
            r == self.frame(),
    {
        self.frame
    }

    pub fn get_cursor(&self) -> (r: Point)
        ensures
            r == self.cursor(),
    {
        self.frame_cursor
    }

    pub fn is_alternate(&self) -> (r: bool)
        ensures
            r == self.alternate(),
    {
        self.alternate
    }

    /// Read access to the canvas.
    pub fn get_canvas(&self) -> (r: &Canvas)
        ensures
            *r == self.canvas(),
    {
        &self.canvas
    }

    /// Number of characters that `write` takes from a text of `len`
    /// characters: what fits between the cursor and the right edge of the
    /// frame, and nothing once the cursor is below the frame.
    pub open spec fn written(&self, len: int) -> int {
        if self.cursor().y < self.frame().bottom() {
            min_int(len, self.frame().right() - self.cursor().x)
        } else {
            0
        }
    }

    /// The renderer is `before` after `text` was written at its cursor: the
    /// characters that fit between the cursor and the right edge of the frame
    /// stand in the cells from the cursor on, whose styles are untouched, and
    /// the cursor is past them.
    pub open spec fn wrote(&self, before: &Renderer, text: Seq<char>) -> bool {
        let start = before.cursor();
        let count = before.written(text.len() as int);
        &&& self.frame() == before.frame()
        &&& self.alternate() == before.alternate()
        &&& self.cursor() == (Point { x: (start.x + count) as usize, y: start.y })
        &&& self.canvas().same_outside(&before.canvas(), before.frame())
        &&& forall|x: int, y: int|
            self.canvas().on_grid(x, y) ==> #[trigger] self.canvas().draw_at(x, y) == if y
                == start.y && start.x <= x < start.x + count {
                Cell { glyph: Some(text[x - start.x]), ..before.canvas().draw_at(x, y) }
            } else {
                before.canvas().draw_at(x, y)
            }
    }

    /// Writes `buf` at the cursor, cut off at the right edge of the frame,
    /// and moves the cursor past what was written.
    pub fn write(&mut self, buf: &str)
        requires
            old(self).wf(),
        ensures
            final(self).wf(),
            final(self).wrote(old(self), buf@),
    {
        if self.frame_cursor.y >= self.frame.max_y() {
            return ;
        }
        let space: usize = self.frame.max_x() - self.frame_cursor.x;
        let count: usize = min_usize(buf.unicode_len(), space);
        self.canvas.write_prefix(&self.frame_cursor, buf, count);
        self.frame_cursor.x = self.frame_cursor.x + count;
    }

    /// Writes the first `count` characters of `buf` at the cursor, cut off at
    /// the right edge of the frame.
    pub fn write_prefix(&mut self, buf: &str, count: usize)
        requires
            old(self).wf(),
            count <= buf@.len(),
        ensures
            final(self).wf(),
            final(self).wrote(old(self), buf@.take(count as int)),
    {
        if self.frame_cursor.y >= self.frame.max_y() {
            return ;
        }
        let space: usize = self.frame.max_x() - self.frame_cursor.x;
        let count: usize = min_usize(count, space);
        self.canvas.write_prefix(&self.frame_cursor, buf, count);
        self.frame_cursor.x = self.frame_cursor.x + count;
    }

    /// Writes one character at the cursor, if the cursor is inside the
    /// frame, and moves the cursor past it.
    pub fn write_char(&mut self, glyph: char)
        requires
            old(self).wf(),
        ensures
            final(self).wf(),
            final(self).wrote(old(self), seq![glyph]),
    {
        if self.frame_cursor.y >= self.frame.max_y() || self.frame_cursor.x >= self.frame.max_x() {
            return ;
        }
        self.canvas.write_char(&self.frame_cursor, glyph);
        self.frame_cursor.x = self.frame_cursor.x + 1;
    }

    /// Brings the terminal up to date with what was painted.
    pub fn flush(&mut self) -> (ops: Vec<Instruction>)
        requires
            old(self).wf(),
        ensures
            final(self).wf(),
            final(self).frame() == old(self).frame(),
            final(self).cursor() == old(self).cursor(),
            final(self).alternate() == old(self).alternate(),
            final(self).canvas().size() == old(self).canvas().size(),
            ops@ == crate::canvas::render_ops(
                old(self).canvas().draw(),
                old(self).canvas().active(),
                old(self).canvas().forced(),
                old(self).canvas().size().width as int,
                old(self).canvas().draw().len() as int,
            ),
            final(self).canvas().active() == old(self).canvas().draw(),
            final(self).canvas().draw() == crate::canvas::blank_cells(
                old(self).canvas().draw().len(),
            ),
            !final(self).canvas().forced(),
    {
        self.canvas.render()
    }

    /// Makes the next flush paint every cell.
    pub fn force_render_once(&mut self)
        requires
            old(self).wf(),
        ensures
            final(self).wf(),
            final(self).frame() == old(self).frame(),
            final(self).cursor() == old(self).cursor(),
            final(self).alternate() == old(self).alternate(),
            final(self).canvas().forced(),
            final(self).canvas().size() == old(self).canvas().size(),
            final(self).canvas().draw() == old(self).canvas().draw(),
            final(self).canvas().active() == old(self).canvas().active(),
    {
        self.canvas.force_render_once();
    }

    /// Makes every cell of the frame show `glyph`.
    pub fn fill(&mut self, glyph: char)
        requires
            old(self).wf(),
        ensures
            final(self).wf(),
            final(self).frame() == old(self).frame(),
            final(self).cursor() == old(self).cursor(),
            final(self).alternate() == old(self).alternate(),
            final(self).canvas().same_outside(&old(self).canvas(), old(self).frame()),
            forall|x: int, y: int|
                old(self).frame().covers(x, y) ==> #[trigger] final(self).canvas().draw_at(x, y)
                    == (Cell { glyph: Some(glyph), ..old(self).canvas().draw_at(x, y) }),
    {
        self.canvas.fill_glyph(&self.frame, glyph);
    }

    /// Gives every cell of the frame the background `color`.
    pub fn set_background(&mut self, color: &Color)
        requires
            old(self).wf(),
        ensures
            final(self).wf(),
            final(self).frame() == old(self).frame(),
            final(self).cursor() == old(self).cursor(),
            final(self).alternate() == old(self).alternate(),
            final(self).canvas().same_outside(&old(self).canvas(), old(self).frame()),
            forall|x: int, y: int|
                old(self).frame().covers(x, y) ==> #[trigger] final(self).canvas().draw_at(x, y)
                    == (Cell { bg: Some(*color), ..old(self).canvas().draw_at(x, y) }),
    {
        self.canvas.fill_background(&self.frame, color);
    }

    /// Gives every cell of the frame the foreground `color`.
    pub fn set_foreground(&mut self, color: &Color)
        requires
            old(self).wf(),
        ensures
            final(self).wf(),
            final(self).frame() == old(self).frame(),
            final(self).cursor() == old(self).cursor(),
            final(self).alternate() == old(self).alternate(),
            final(self).canvas().same_outside(&old(self).canvas(), old(self).frame()),
            forall|x: int, y: int|
                old(self).frame().covers(x, y) ==> #[trigger] final(self).canvas().draw_at(x, y)
                    == (Cell { fg: Some(*color), ..old(self).canvas().draw_at(x, y) }),
    {
        self.canvas.fill_foreground(&self.frame, color);
    }

    /// Replaces the attributes of every cell of the frame.
    pub fn set_attributes(&mut self, attributes: Attributes)
        requires
            old(self).wf(),
        ensures
            final(self).wf(),
            final(self).frame() == old(self).frame(),
            final(self).cursor() == old(self).cursor(),
            final(self).alternate() == old(self).alternate(),
            final(self).canvas().same_outside(&old(self).canvas(), old(self).frame()),
            forall|x: int, y: int|
                old(self).frame().covers(x, y) ==> #[trigger] final(self).canvas().draw_at(x, y)
                    == (Cell { attrs: attributes, ..old(self).canvas().draw_at(x, y) }),
    {
        self.canvas.overwrite_attributes(&self.frame, attributes);
    }

    /// Adds `attributes` to those of every cell of the frame.
    pub fn add_attributes(&mut self, attributes: Attributes)
        requires
            old(self).wf(),
        ensures
            final(self).wf(),
            final(self).frame() == old(self).frame(),
            final(self).cursor() == old(self).cursor(),
            final(self).alternate() == old(self).alternate(),
            final(self).canvas().same_outside(&old(self).canvas(), old(self).frame()),
            forall|x: int, y: int|
                old(self).frame().covers(x, y) ==> #[trigger] final(self).canvas().draw_at(x, y)
                    == (Cell {
                    attrs: old(self).canvas().draw_at(x, y).attrs.merged(attributes),
                    ..old(self).canvas().draw_at(x, y)
                }),
    {
        self.canvas.merge_attributes(&self.frame, attributes);
    }

    /// Moves the cursor to the start of the next row of the frame. On the
    /// last row of the frame, or below it, the cursor stays where it is.
    pub fn next_line(&mut self)
        requires
            old(self).wf(),
        ensures
            final(self).wf(),
            final(self).frame() == old(self).frame(),
            final(self).alternate() == old(self).alternate(),
            final(self).canvas() == old(self).canvas(),
            final(self).cursor() == if old(self).cursor().y + 1 < old(self).frame().bottom() {
                Point { x: old(self).frame().origin.x, y: (old(self).cursor().y + 1) as usize }
            } else {
                old(self).cursor()
            },
    {
        if self.frame_cursor.y >= self.frame.max_y() - 1 {
            return ;
        }
        self.frame_cursor.x = self.frame.min_x();
        self.frame_cursor.y = self.frame_cursor.y + 1;
    }

    /// Moves the cursor `columns` columns to the right, at most onto the
    /// right edge of the frame.
    pub fn move_right(&mut self, columns: usize)
        requires
            old(self).wf(),
        ensures
            final(self).wf(),
            final(self).frame() == old(self).frame(),
            final(self).alternate() == old(self).alternate(),
            final(self).canvas() == old(self).canvas(),
            final(self).cursor() == (Point {
                x: min_int(old(self).cursor().x + columns, old(self).frame().right()) as usize,
                y: old(self).cursor().y,
            }),
    {
        let room: usize = self.frame.max_x() - self.frame_cursor.x;
        self.frame_cursor.x = self.frame_cursor.x + min_usize(columns, room);
    }

    /// Confines painting to `frame` and puts the cursor on its first cell.
    pub fn set_frame(&mut self, frame: Rect)
        requires
            old(self).wf(),
            !frame.empty(),
            old(self).base_frame().encloses(frame),
        ensures
            final(self).wf(),
            final(self).frame() == frame,
            final(self).cursor() == frame.origin,
            final(self).alternate() == old(self).alternate(),
            final(self).canvas() == old(self).canvas(),
    {
        self.frame = frame;
        self.frame_cursor = frame.origin;
    }

    /// Puts the cursor on column `x`, row `y` of the canvas, if that cell
    /// lies in the frame or on its right or lower edge.
    pub fn move_to(&mut self, x: u16, y: u16) -> (r: Option<()>)
        requires
            old(self).wf(),
        ensures
            final(self).wf(),
            final(self).frame() == old(self).frame(),
            final(self).alternate() == old(self).alternate(),
            final(self).canvas() == old(self).canvas(),
            r is Some <==> old(self).frame().origin.x <= x <= old(self).frame().right() && old(
                self,
            ).frame().origin.y <= y <= old(self).frame().bottom(),
            final(self).cursor() == if r is Some {
                Point { x: x as usize, y: y as usize }
            } else {
                old(self).cursor()
            },
    {
        let column: usize = x as usize;
        let row: usize = y as usize;
        if column < self.frame.min_x() || column > self.frame.max_x() {
            return None;
        }
        if row < self.frame.min_y() || row > self.frame.max_y() {
            return None;
        }
        self.frame_cursor = Point::new(column, row);
        Some(())
    }

    /// Puts the cursor `x` columns right of the left edge of the frame, if
    /// that is not beyond its right edge.
    pub fn move_to_column_relative(&mut self, x: u16) -> (r: Option<()>)
        requires
            old(self).wf(),
        ensures
            final(self).wf(),
            final(self).frame() == old(self).frame(),
            final(self).alternate() == old(self).alternate(),
            final(self).canvas() == old(self).canvas(),
            r is Some <==> x <= old(self).frame().size.width,
            final(self).cursor() == if r is Some {
                Point { x: (old(self).frame().origin.x + x) as usize, y: old(self).cursor().y }
            } else {
                old(self).cursor()
            },
    {
        let offset: usize = x as usize;
        if offset > self.frame.width() {
            return None;
        }
        self.frame_cursor.x = self.frame.min_x() + offset;
        Some(())
    }
}

/// Children were rendered one after another, child `j` into `frames[j]` on
/// top of what the children before it left: `steps[j]` is the context before
/// child `j` was rendered, `steps[j + 1]` the context after it, and
/// `results[j]` what rendering it reported, all as [`RenderCtx::rendered`]
/// says. As many children were rendered as there are results.
pub open spec fn rendered_in_turn<W: Widget>(
    steps: Seq<RenderCtx>,
    frames: Seq<Rect>,
    children: Seq<W>,
    results: Seq<RenderResult>,
) -> bool {
    &&& steps.len() == results.len() + 1
    &&& results.len() <= frames.len()
    &&& results.len() <= children.len()
    &&& forall|j: int|
        0 <= j < results.len() ==> steps[j + 1].rendered(
            &steps[j],
            frames[j],
            &children[j],
            #[trigger] results[j],
        )
}

/// One more child rendered extends the record of those rendered before it.
pub proof fn lemma_rendered_next<W: Widget>(
    steps: Seq<RenderCtx>,
    frames: Seq<Rect>,
    children: Seq<W>,
    results: Seq<RenderResult>,
    after: RenderCtx,
    result: RenderResult,
)
    requires
        rendered_in_turn(steps, frames, children, results),
        results.len() < frames.len(),
        results.len() < children.len(),
        after.rendered(
            &steps.last(),
            frames[results.len() as int],
            &children[results.len() as int],
            result,
        ),
    ensures
        rendered_in_turn(steps.push(after), frames, children, results.push(result)),
{
    let steps2 = steps.push(after);
    let results2 = results.push(result);
    assert forall|j: int| 0 <= j < results2.len() implies steps2[j + 1].rendered(
        &steps2[j],
        frames[j],
        &children[j],
        #[trigger] results2[j],
    ) by {
        if j < results.len() {
            assert(steps2[j + 1] == steps[j + 1]);
            assert(steps2[j] == steps[j]);
            assert(results2[j] == results[j]);
        }
    }
}

/// The cell at column `x`, row `y` lies in one of the frames.
pub open spec fn covers_any(frames: Seq<Rect>, x: int, y: int) -> bool {
    exists|i: int| 0 <= i < frames.len() && #[trigger] frames[i].covers(x, y)
}

/// Rendering one more child touches no cell outside the frames that
/// children were placed in.
pub proof fn lemma_painted_where_placed(
    start: RenderCtx,
    before: RenderCtx,
    after: RenderCtx,
    frame: Rect,
)
    requires
        start.placed().len() <= before.placed().len(),
        before.painted_where_placed(&start),
        before.canvas().size() == start.canvas().size(),
        after.canvas().size() == before.canvas().size(),
        after.placed() == before.placed().push(frame),
        before.child_frame(frame) is None ==> after.canvas() == before.canvas(),
        before.child_frame(frame) matches Some(inner) ==> after.canvas().same_outside(
            &before.canvas(),
            inner,
        ),
    ensures
        after.painted_where_placed(&start),
{
    let n = start.placed().len() as int;
    let earlier = before.placed().skip(n);
    let now = after.placed().skip(n);
    assert(now =~= earlier.push(frame));
    assert forall|x: int, y: int|
        after.canvas().on_grid(x, y) && !covers_any(now, x, y) implies #[trigger] after.canvas().draw_at(
        x,
        y,
    ) == start.canvas().draw_at(x, y) by {
        assert(now[now.len() - 1] == frame);
        assert(!frame.covers(x, y));
        assert(before.canvas().on_grid(x, y));
        if covers_any(earlier, x, y) {
            let i = choose|i: int| 0 <= i < earlier.len() && #[trigger] earlier[i].covers(x, y);
            assert(now[i].covers(x, y));
        }
        if before.frame().overlaps(frame) {
            crate::geometry::lemma_common_is_enclosed(before.frame(), frame);
        }
    }
}

/// A render that placed children only in the first frames of a plan touched
/// no cell outside the frames of the plan.
pub proof fn lemma_painted_within_plan(start: RenderCtx, after: RenderCtx, plan: Seq<Rect>)
    requires
        after.placed_some_of(&start, plan),
        after.painted_where_placed(&start),
    ensures
        after.painted_within(&start, plan),
{
    let n = start.placed().len() as int;
    let placed = after.placed().skip(n);
    assert(placed =~= plan.take(placed.len() as int));
    assert forall|x: int, y: int|
        after.canvas().on_grid(x, y) && !covers_any(plan, x, y) implies #[trigger] after.canvas().draw_at(
        x,
        y,
    ) == start.canvas().draw_at(x, y) by {
        if covers_any(placed, x, y) {
            let i = choose|i: int| 0 <= i < placed.len() && #[trigger] placed[i].covers(x, y);
            assert(plan[i].covers(x, y));
        }
    }
}

/// What a widget is handed to render itself: the renderer, framed on the
/// rectangle that the widget may paint into.
pub struct RenderCtx {
    renderer: Renderer,
    depth: usize,
    placed: Ghost<Seq<Rect>>,
}

impl RenderCtx {
    /// The renderer that the context hands out.
    pub closed spec fn inner(&self) -> Renderer {
        self.renderer
    }

    /// How many parents the widget being rendered has.
    pub closed spec fn depth(&self) -> usize {
        self.depth
    }

    /// The frames that the widget being rendered has asked its children to
    /// render themselves into so far, in the order of asking.
    pub closed spec fn placed(&self) -> Seq<Rect> {
        self.placed@
    }

    /// The rectangle that the widget being rendered may paint into.
    pub open spec fn frame(&self) -> Rect {
        self.inner().frame()
    }

    /// The canvas painted into.
    pub open spec fn canvas(&self) -> Canvas {
        self.inner().canvas()
    }

    pub open spec fn wf(&self) -> bool {
        self.inner().wf()
    }

    /// Since `before`, children were placed in the first of the frames of
    /// `plan`, in order, and in no others.
    pub open spec fn placed_some_of(&self, before: &RenderCtx, plan: Seq<Rect>) -> bool {
        let count = self.placed().len() - before.placed().len();
        &&& 0 <= count <= plan.len()
        &&& self.placed() == before.placed() + plan.take(count)
    }

    /// Since `before`, children were placed in all the frames of `plan`, in
    /// order, and in no others.
    pub open spec fn placed_all_of(&self, before: &RenderCtx, plan: Seq<Rect>) -> bool {
        self.placed() == before.placed() + plan
    }

    /// Since `before`, no desired cell outside the frames of `plan` was
    /// touched.
    pub open spec fn painted_within(&self, before: &RenderCtx, plan: Seq<Rect>) -> bool {
        forall|x: int, y: int|
            self.canvas().on_grid(x, y) && !covers_any(plan, x, y) ==> #[trigger] self.canvas().draw_at(
                x,
                y,
            ) == before.canvas().draw_at(x, y)
    }

    /// The frames that children were placed in since `before`, in order.
    pub open spec fn placed_since(&self, before: &RenderCtx) -> Seq<Rect> {
        self.placed().skip(before.placed().len() as int)
    }

    /// Since `before`, no desired cell was touched that lies outside the
    /// frames that children were placed in.
    pub open spec fn painted_where_placed(&self, before: &RenderCtx) -> bool {
        self.painted_within(before, self.placed_since(before))
    }

    /// `handed` is the context as it is handed to a child that is rendered
    /// into `inner`: framed on `inner` with the cursor on its first cell, on
    /// the canvas as it is, and with no child placed yet.
    pub open spec fn hands_over(&self, inner: Rect, handed: RenderCtx) -> bool {
        &&& handed.wf()
        &&& handed.frame() == inner
        &&& handed.inner().cursor() == inner.origin
        &&& handed.inner().alternate() == self.inner().alternate()
        &&& handed.canvas() == self.canvas()
        &&& handed.placed() == Seq::<Rect>::empty()
    }

    /// The context is what rendering `child` into `frame` makes of `before`,
    /// with `result` reported. The context is framed as before and `frame` is
    /// on record as the latest frame that a child was placed in. Where `frame`
    /// has no cell in common with the frame of `before`, the child is skipped:
    /// the result is `Ok` and nothing else has changed, the cursor included.
    /// Else the child was rendered once, in a context handed to it as
    /// [`RenderCtx::hands_over`] says for the common part; the result is what
    /// the child reported, the canvas is as the child left it, no cell outside
    /// the common part was touched, and the cursor is on the first cell of the
    /// frame.
    pub open spec fn rendered<W: Widget + ?Sized>(
        &self,
        before: &RenderCtx,
        frame: Rect,
        child: &W,
        result: RenderResult,
    ) -> bool {
        &&& self.confined(before)
        &&& self.placed() == before.placed().push(frame)
        &&& before.child_frame(frame) is None ==> {
            &&& result is Ok
            &&& self.inner() == before.inner()
        }
        &&& before.child_frame(frame) matches Some(inner) ==> {
            &&& self.canvas().same_outside(&before.canvas(), inner)
            &&& self.inner().cursor() == before.frame().origin
            &&& exists|handed: RenderCtx, left: RenderCtx|
                {
                    &&& before.hands_over(inner, handed)
                    &&& #[trigger] child.render_spec(handed, left, result)
                    &&& left.confined(&handed)
                    &&& self.canvas() == left.canvas()
                }
        }
    }

    /// Since `before`, at least one child was placed, and the one placed last
    /// was rendered: its frame has a cell in common with the frame of the
    /// context. So it is when the error of a child ends a render.
    pub open spec fn last_child_rendered(&self, before: &RenderCtx) -> bool {
        &&& self.placed().len() > before.placed().len()
        &&& before.child_frame(self.placed().last()) is Some
    }

    /// None of the frames of `plan` has a cell in common with the frame of
    /// the context: a child placed in one of them is skipped.
    pub open spec fn skips_all(&self, plan: Seq<Rect>) -> bool {
        forall|i: int| 0 <= i < plan.len() ==> self.child_frame(#[trigger] plan[i]) is None
    }

    /// A render pass left the context as the protocol asks: the frame and
    /// the screen size are as before and no cell outside the frame was
    /// touched.
    pub open spec fn confined(&self, before: &RenderCtx) -> bool {
        &&& self.wf()
        &&& self.frame() == before.frame()
        &&& self.depth() == before.depth()
        &&& self.inner().alternate() == before.inner().alternate()
        &&& self.canvas().same_outside(&before.canvas(), before.frame())
    }

    /// A context for a screen of the given size, framed on all of it, or
    /// `None` where the size has no cells or more than a buffer can hold.
    pub fn new(size: Size, alternate: bool) -> (r: Option<RenderCtx>)
        ensures
            r is Some <==> 0 < size.area() <= usize::MAX,
            r matches Some(ctx) ==> {
                &&& ctx.wf()
                &&& ctx.frame() == (Rect { origin: Point { x: 0, y: 0 }, size })
                &&& ctx.depth() == 0
                &&& ctx.placed() == Seq::<Rect>::empty()
                &&& ctx.inner().alternate() == alternate
                &&& ctx.canvas().size() == size
                &&& ctx.canvas().draw() == crate::canvas::blank_cells(size.area() as nat)
                &&& ctx.canvas().active() == crate::canvas::blank_cells(size.area() as nat)
                &&& !ctx.canvas().forced()
            },
    {
        match Renderer::new(size, alternate) {
            Some(renderer) => Some(RenderCtx { renderer, depth: 0, placed: Ghost(Seq::empty()) }),
            None => None,
        }
    }

    /// The renderer, to paint with.
    pub fn renderer(&mut self) -> (r: &mut Renderer)
        ensures
            *r == old(self).inner(),
            final(self).inner() == *final(r),
            final(self).depth() == old(self).depth(),
            final(self).placed() == old(self).placed(),
    {
        &mut self.renderer
    }

    pub fn get_frame(&self) -> (r: Rect)
        ensures
            r == self.frame(),
    {
        self.renderer.get_frame()
    }

    /// Width and height of the screen.
    pub fn canvas_size(&self) -> (r: Size)
        ensures
            r == self.canvas().size(),
    {
        self.renderer.get_canvas().get_size()
    }

    /// Read access to the canvas.
    pub fn get_canvas(&self) -> (r: &Canvas)
        ensures
            *r == self.canvas(),
    {
        self.renderer.get_canvas()
    }

    /// The frame a child gets that asks for `frame`: the part of it that
    /// lies inside the parent's frame, if there is any.
    pub open spec fn child_frame(&self, frame: Rect) -> Option<Rect> {
        if self.frame().overlaps(frame) {
            Some(self.frame().common(frame))
        } else {
            None
        }
    }

    /// Renders `child` into the part of `frame` that lies inside the frame
    /// of this context. A child whose frame has no cell in common with it is
    /// skipped, which is no error and changes nothing. Any other child is
    /// rendered once, with the context framed on the common part, and what it
    /// reports is returned. Afterwards the context is framed as it was before
    /// with the cursor on the first cell of its frame, and `frame` is on
    /// record as the latest frame that a child was placed in.
    pub fn render_child<W: Widget + ?Sized>(&mut self, frame: Rect, child: &W) -> (r: RenderResult)
        requires
            old(self).wf(),
        ensures
            final(self).rendered(old(self), frame, child, r),
    {
        let own = self.renderer.get_frame();
        let ghost placed = self.placed@.push(frame);
        match own.intersection(&frame) {
            None => {
                self.placed = Ghost(placed);
                Ok(())
            },
            Some(inner) => {
                let depth: usize = self.depth;
                self.renderer.set_frame(inner);
                self.depth = if depth < usize::MAX { depth + 1 } else { depth };
                self.placed = Ghost(Seq::empty());
                let ghost handed = *self;
                let result = child.render(self);
                let ghost left = *self;
                assert(old(self).hands_over(inner, handed) && child.render_spec(handed, left, result)
                    && left.confined(&handed));
                self.depth = depth;
                self.placed = Ghost(placed);
                self.renderer.set_frame(own);
                result
            },
        }
    }

    /// Same as [`RenderCtx::render_child`].
    pub fn render_child_widget<W: Widget + ?Sized>(&mut self, frame: Rect, child: &W) -> (r:
        RenderResult)
        requires
            old(self).wf(),
        ensures
            final(self).rendered(old(self), frame, child, r),
    {
        self.render_child(frame, child)
    }

    /// Gives the screen a new size and frames the context on all of it.
    pub fn resize(&mut self, cols: usize, rows: usize) -> (accepted: bool)
        requires
            old(self).wf(),
        ensures
            final(self).wf(),
            final(self).depth() == old(self).depth(),
            final(self).placed() == old(self).placed(),
            accepted <==> 0 < cols * rows <= usize::MAX,
            accepted ==> {
                &&& final(self).frame() == (Rect {
                    origin: Point { x: 0, y: 0 },
                    size: Size { width: cols, height: rows },
                })
                &&& final(self).canvas().size() == (Size { width: cols, height: rows })
                &&& final(self).canvas().forced()
            },
            !accepted ==> *final(self) == *old(self),
    {
        self.renderer.resize(cols, rows)
    }

    /// Brings the terminal up to date with what was painted.
    pub fn flush(&mut self) -> (ops: Vec<Instruction>)
        requires
            old(self).wf(),
        ensures
            final(self).wf(),
            final(self).frame() == old(self).frame(),
            final(self).depth() == old(self).depth(),
            final(self).placed() == old(self).placed(),
            final(self).canvas().size() == old(self).canvas().size(),
            ops@ == crate::canvas::render_ops(
                old(self).canvas().draw(),
                old(self).canvas().active(),
                old(self).canvas().forced(),
                old(self).canvas().size().width as int,
                old(self).canvas().draw().len() as int,
            ),
            final(self).canvas().active() == old(self).canvas().draw(),
            final(self).canvas().draw() == crate::canvas::blank_cells(
                old(self).canvas().draw().len(),
            ),
            !final(self).canvas().forced(),
    {
        self.renderer.flush()
    }
}

impl Immutable for RenderCtx {

}

} // verus!
