//! The cell canvas: a grid of styled cells kept twice, once as it should
//! look (`draw`) and once as the terminal currently shows it (`active`), and
//! the rendering that turns the difference into terminal instructions.

use vstd::prelude::*;
use vstd::string::StrSliceExecFns;
use crate::geometry::{min_int, min_usize, Point, Rect, Size};
use crate::style::{Attributes, Color};

verus! {

/// One terminal slot.
#[derive(Debug, Clone, Copy, PartialEq, Eq, Structural)]
pub struct Cell {
    /// The character shown; `None` is a blank.
    pub glyph: Option<char>,
    pub fg: Option<Color>,
    pub bg: Option<Color>,
    pub attrs: Attributes,
}

impl Cell {
    /// The cell that shows nothing and carries no style.
    pub open spec fn blank() -> Cell {
        Cell { glyph: None, fg: None, bg: None, attrs: Attributes { bits: 0 } }
    }

    /// The character a terminal prints for the cell.
    pub open spec fn shown(self) -> char {
        match self.glyph {
            Some(c) => c,
            None => ' ',
        }
    }
}

impl Default for Cell {
    fn default() -> (r: Self)
        ensures
            r == Cell::blank(),
    {
        Cell { glyph: None, fg: None, bg: None, attrs: Attributes { bits: 0 } }
    }
}

/// One operation for the terminal driver.
#[derive(Debug, Clone, Copy, PartialEq, Eq, Structural)]
pub enum Instruction {
    /// Put the cursor on column `x`, row `y`.
    MoveCursor { x: usize, y: usize },
    SetForeground(Color),
    SetBackground(Color),
    /// Make the active attribute set exactly `attributes`. Where `reset` is
    /// set, attributes were active before: the driver first resets the
    /// terminal's style, which resets both colours too.
    SetAttributes { attributes: Attributes, reset: bool },
    /// Print one character at the cursor, which then moves one column right.
    Print(char),
}

/// What the renderer knows of the terminal while it emits instructions.
#[derive(Debug, Clone, Copy, PartialEq, Eq, Structural)]
pub struct Pen {
    pub cursor: Point,
    pub attrs: Attributes,
    pub bg: Color,
    pub fg: Color,
}

/// A change applied to every cell of a rectangle.
#[derive(Debug, Clone, Copy, PartialEq, Eq, Structural)]
pub enum CellChange {
    /// Show this character.
    Glyph(char),
    Background(Color),
    Foreground(Color),
    /// Add the attributes to those the cell has.
    MergeAttributes(Attributes),
    /// Replace the cell's attributes.
    SetAttributes(Attributes),
    /// Remove all attributes of the cell.
    ClearAttributes,
}

impl CellChange {
    /// The cell after the change.
    pub open spec fn changed(self, cell: Cell) -> Cell {
        match self {
            CellChange::Glyph(glyph) => Cell { glyph: Some(glyph), ..cell },
            CellChange::Background(color) => Cell { bg: Some(color), ..cell },
            CellChange::Foreground(color) => Cell { fg: Some(color), ..cell },
            CellChange::MergeAttributes(attrs) => Cell { attrs: cell.attrs.merged(attrs), ..cell },
            CellChange::SetAttributes(attrs) => Cell { attrs, ..cell },
            CellChange::ClearAttributes => Cell { attrs: Attributes { bits: 0 }, ..cell },
        }
    }

    fn apply_to(&self, cell: Cell) -> (r: Cell)
        ensures
            r == self.changed(cell),
    {
        match self {
            CellChange::Glyph(glyph) => Cell {
                glyph: Some(*glyph),
                fg: cell.fg,
                bg: cell.bg,
                attrs: cell.attrs,
            },
            CellChange::Background(color) => Cell {
                glyph: cell.glyph,
                fg: cell.fg,
                bg: Some(*color),
                attrs: cell.attrs,
            },
            CellChange::Foreground(color) => Cell {
                glyph: cell.glyph,
                fg: Some(*color),
                bg: cell.bg,
                attrs: cell.attrs,
            },
            CellChange::MergeAttributes(attrs) => Cell {
                glyph: cell.glyph,
                fg: cell.fg,
                bg: cell.bg,
                attrs: cell.attrs.union(*attrs),
            },
            CellChange::SetAttributes(attrs) => Cell {
                glyph: cell.glyph,
                fg: cell.fg,
                bg: cell.bg,
                attrs: *attrs,
            },
            CellChange::ClearAttributes => Cell {
                glyph: cell.glyph,
                fg: cell.fg,
                bg: cell.bg,
                attrs: Attributes::none(),
            },
        }
    }
}

/// Position of the cell at column `x`, row `y` in a row-major buffer.
pub open spec fn cell_index(width: int, x: int, y: int) -> int {
    y * width + x
}

/// The cell that sits at position `index` of a row-major buffer.
pub open spec fn point_of(width: int, index: int) -> Point {
    Point { x: (index % width) as usize, y: (index / width) as usize }
}

/// A buffer of `len` blank cells.
pub open spec fn blank_cells(len: nat) -> Seq<Cell> {
    Seq::new(len, |i: int| Cell::blank())
}

/// The colour itself, or the terminal's default where none is set.
pub open spec fn color_or_reset(color: Option<Color>) -> Color {
    match color {
        Some(c) => c,
        None => Color::Reset,
    }
}

/// A cell is painted again when it differs from what the terminal shows, or
/// when a full repaint is forced.
pub open spec fn repaints(draw: Cell, active: Cell, force: bool) -> bool {
    force || draw != active
}

/// The pen at the start of a render: cursor on the top-left cell, no
/// attributes, default colours.
pub open spec fn initial_pen() -> Pen {
    Pen {
        cursor: Point { x: 0, y: 0 },
        attrs: Attributes { bits: 0 },
        bg: Color::Reset,
        fg: Color::Reset,
    }
}

/// The pen once the attributes of `cell` are active: switching away from a
/// non-empty attribute set resets both colours.
pub open spec fn pen_with_attrs(pen: Pen, cell: Cell) -> Pen {
    if cell.attrs != pen.attrs {
        if pen.attrs.bits != 0 {
            Pen { attrs: cell.attrs, bg: Color::Reset, fg: Color::Reset, ..pen }
        } else {
            Pen { attrs: cell.attrs, ..pen }
        }
    } else {
        pen
    }
}

/// The cursor move that painting at `at` needs, if any.
pub open spec fn cursor_ops(pen: Pen, at: Point) -> Seq<Instruction> {
    if pen.cursor != at {
        seq![Instruction::MoveCursor { x: at.x, y: at.y }]
    } else {
        Seq::empty()
    }
}

/// The attribute switch that painting `cell` needs, if any.
pub open spec fn attr_ops(pen: Pen, cell: Cell) -> Seq<Instruction> {
    if cell.attrs != pen.attrs {
        seq![Instruction::SetAttributes { attributes: cell.attrs, reset: pen.attrs.bits != 0 }]
    } else {
        Seq::empty()
    }
}

/// The background switch that painting `cell` needs, if any.
pub open spec fn bg_ops(pen: Pen, cell: Cell) -> Seq<Instruction> {
    if color_or_reset(cell.bg) != pen.bg {
        seq![Instruction::SetBackground(color_or_reset(cell.bg))]
    } else {
        Seq::empty()
    }
}

/// The foreground switch that painting `cell` needs, if any.
pub open spec fn fg_ops(pen: Pen, cell: Cell) -> Seq<Instruction> {
    if color_or_reset(cell.fg) != pen.fg {
        seq![Instruction::SetForeground(color_or_reset(cell.fg))]
    } else {
        Seq::empty()
    }
}

/// The instructions that paint `cell` at `at`: a cursor move if the cursor is
/// elsewhere, a switch of each style axis that differs from the pen, and the
/// character.
pub open spec fn cell_ops(pen: Pen, at: Point, cell: Cell) -> Seq<Instruction> {
    let styled = pen_with_attrs(pen, cell);
    cursor_ops(pen, at) + attr_ops(pen, cell) + bg_ops(styled, cell) + fg_ops(styled, cell)
        + seq![Instruction::Print(cell.shown())]
}

/// The pen after `cell` was painted at `at`.
pub open spec fn pen_after(at: Point, cell: Cell) -> Pen {
    Pen {
        cursor: Point { x: (at.x + 1) as usize, y: at.y },
        attrs: cell.attrs,
        bg: color_or_reset(cell.bg),
        fg: color_or_reset(cell.fg),
    }
}

/// The pen after the first `k` cells were rendered.
pub open spec fn render_pen(
    draw: Seq<Cell>,
    active: Seq<Cell>,
    force: bool,
    width: int,
    k: int,
) -> Pen
    decreases k,
{
    if k <= 0 {
        initial_pen()
    } else if repaints(draw[k - 1], active[k - 1], force) {
        pen_after(point_of(width, k - 1), draw[k - 1])
    } else {
        render_pen(draw, active, force, width, k - 1)
    }
}

/// The instructions that rendering the first `k` cells emits, cell by cell
/// in row-major order.
pub open spec fn render_ops(
    draw: Seq<Cell>,
    active: Seq<Cell>,
    force: bool,
    width: int,
    k: int,
) -> Seq<Instruction>
    decreases k,
{
    if k <= 0 {
        Seq::empty()
    } else if repaints(draw[k - 1], active[k - 1], force) {
        render_ops(draw, active, force, width, k - 1) + cell_ops(
            render_pen(draw, active, force, width, k - 1),
            point_of(width, k - 1),
            draw[k - 1],
        )
    } else {
        render_ops(draw, active, force, width, k - 1)
    }
}

/// The characters that a list of instructions prints, in order.
pub open spec fn printed(ops: Seq<Instruction>) -> Seq<char>
    decreases ops.len(),
{
    if ops.len() == 0 {
        Seq::empty()
    } else {
        match ops.last() {
            Instruction::Print(c) => printed(ops.drop_last()).push(c),
            _ => printed(ops.drop_last()),
        }
    }
}

/// The characters of the first `k` cells, as a terminal shows them.
pub open spec fn shown_cells(cells: Seq<Cell>, k: int) -> Seq<char> {
    Seq::new(k as nat, |i: int| cells[i].shown())
}

/// Cells of a grid are stored without gaps or overlaps: every cell of the
/// grid has a position inside the buffer, from which its column and row can
/// be told again.
pub proof fn lemma_cell_index(width: int, height: int, x: int, y: int)
    requires
        0 <= x < width,
        0 <= y < height,
    ensures
        0 <= cell_index(width, x, y) < width * height,
        cell_index(width, x, y) % width == x,
        cell_index(width, x, y) / width == y,
{
    let i = y * width + x;
    assert(0 <= y * width) by (nonlinear_arith)
        requires
            0 <= y,
            0 < width,
    ;
    assert(y * width + width <= width * height) by (nonlinear_arith)
        requires
            y + 1 <= height,
            0 < width,
    ;
    vstd::arithmetic::div_mod::lemma_fundamental_div_mod_converse(i, width, y, x);
}

/// Every position of the buffer is the position of one cell of the grid.
pub proof fn lemma_point_of(width: int, height: int, index: int)
    requires
        0 < width,
        0 <= index < width * height,
    ensures
        0 <= index % width < width,
        0 <= index / width < height,
        cell_index(width, index % width, index / width) == index,
{
    vstd::arithmetic::div_mod::lemma_fundamental_div_mod(index, width);
    let q = index / width;
    let r = index % width;
    assert(0 <= q < height) by (nonlinear_arith)
        requires
            index == width * q + r,
            0 <= r < width,
            0 <= index < width * height,
    ;
    assert(width * q == q * width) by (nonlinear_arith);
}

/// A grid of cells in two buffers of equal size, both stored row by row.
pub struct Canvas {
    size: Size,
    draw_buffer: Vec<Cell>,
    active_buffer: Vec<Cell>,
    force_render_once: bool,
}

impl Canvas {
    /// Width and height of the grid.
    pub closed spec fn size(&self) -> Size {
        self.size
    }

    /// The cells as they should look, row by row.
    pub closed spec fn draw(&self) -> Seq<Cell> {
        self.draw_buffer@
    }

    /// The cells as the terminal shows them, row by row.
    pub closed spec fn active(&self) -> Seq<Cell> {
        self.active_buffer@
    }

    /// While set, the next render paints every cell, whatever the terminal
    /// is believed to show.
    pub closed spec fn forced(&self) -> bool {
        self.force_render_once
    }

    /// The grid is not empty and both buffers hold one cell per grid cell.
    pub open spec fn wf(&self) -> bool {
        &&& self.size().width > 0
        &&& self.size().height > 0
        &&& self.draw().len() == self.size().width * self.size().height
        &&& self.active().len() == self.size().width * self.size().height
    }

    /// The column `x`, row `y` lies on the grid.
    pub open spec fn on_grid(&self, x: int, y: int) -> bool {
        0 <= x < self.size().width && 0 <= y < self.size().height
    }

    /// The desired cell at column `x`, row `y`.
    pub open spec fn draw_at(&self, x: int, y: int) -> Cell {
        self.draw()[cell_index(self.size().width as int, x, y)]
    }

    /// The painted cell at column `x`, row `y`.
    pub open spec fn active_at(&self, x: int, y: int) -> Cell {
        self.active()[cell_index(self.size().width as int, x, y)]
    }

    /// Nothing but desired cells inside `rect` differs between `self` and
    /// `before`.
    pub open spec fn same_outside(&self, before: &Canvas, rect: Rect) -> bool {
        &&& self.size() == before.size()
        &&& self.active() == before.active()
        &&& self.forced() == before.forced()
        &&& forall|x: int, y: int|
            self.on_grid(x, y) && !rect.covers(x, y) ==> #[trigger] self.draw_at(x, y)
                == before.draw_at(x, y)
    }

    /// The grid of a canvas has at least one cell and no more than a buffer
    /// can hold.
    pub proof fn lemma_area(&self)
        requires
            self.wf(),
        ensures
            0 < self.size().area() <= usize::MAX,
            self.draw().len() == self.size().area(),
    {
        broadcast use vstd::std_specs::vec::axiom_spec_len;

        assert(vstd::std_specs::vec::spec_vec_len(&self.draw_buffer) == self.draw_buffer@.len());
        assert(0 < self.size.width * self.size.height) by (nonlinear_arith)
            requires
                self.size.width > 0,
                self.size.height > 0,
        ;
    }

    /// A canvas of the given size with every cell blank in both buffers, or
    /// `None` where the size has no cells or more than a buffer can hold.
    pub fn new(size: Size) -> (r: Option<Canvas>)
        ensures
            r is Some <==> 0 < size.area() <= usize::MAX,
            r matches Some(canvas) ==> {
                &&& canvas.wf()
                &&& canvas.size() == size
                &&& canvas.draw() == blank_cells(size.area() as nat)
                &&& canvas.active() == blank_cells(size.area() as nat)
                &&& !canvas.forced()
            },
    {
        match Self::blank_buffer(size) {
            Some(draw_buffer) => {
                let active_buffer = Self::blank_buffer(size);
                match active_buffer {
                    Some(active_buffer) => {
                        assert(size.width > 0 && size.height > 0) by (nonlinear_arith)
                            requires
                                0 < size.width * size.height,
                        ;
                        Some(Canvas { size, draw_buffer, active_buffer, force_render_once: false })
                    },
                    None => None,
                }
            },
            None => None,
        }
    }

    /// One blank cell per cell of a grid of the given size.
    fn blank_buffer(size: Size) -> (r: Option<Vec<Cell>>)
        ensures
            r is Some <==> 0 < size.area() <= usize::MAX,
            r matches Some(cells) ==> cells@ == blank_cells(size.area() as nat),
    {
        if size.width == 0 || size.height == 0 {
            assert(size.area() == 0) by (nonlinear_arith)
                requires
                    size.width == 0 || size.height == 0,
                    size.area() == size.width * size.height,
            ;
            return None;
        }
        assert(0 < size.area()) by (nonlinear_arith)
            requires
                size.width > 0,
                size.height > 0,
                size.area() == size.width * size.height,
        ;
        let len = match size.width.checked_mul(size.height) {
            Some(len) => len,
            None => {
                return None;
            },
        };
        let mut cells: Vec<Cell> = Vec::new();
        let mut i: usize = 0;
        while i < len
            invariant
                0 <= i <= len,
                cells@.len() == i,
                forall|j: int| 0 <= j < i ==> #[trigger] cells@[j] == Cell::blank(),
            decreases len - i,
        {
            cells.push(Cell::default());
            i = i + 1;
        }
        Some(cells)
    }

    /// Gives the canvas a new size. Both buffers are made anew, all blank,
    /// and the next render paints every cell. A size that has no cells, or
    /// more than a buffer can hold, is rejected: the canvas stays as it was
    /// and `false` is returned.
    pub fn resize(&mut self, size: Size) -> (accepted: bool)
        requires
            old(self).wf(),
        ensures
            final(self).wf(),
            accepted <==> 0 < size.area() <= usize::MAX,
            accepted ==> {
                &&& final(self).size() == size
                &&& final(self).draw() == blank_cells(size.area() as nat)
                &&& final(self).active() == blank_cells(size.area() as nat)
                &&& final(self).forced()
            },
            !accepted ==> *final(self) == *old(self),
    {
        match Canvas::new(size) {
            Some(canvas) => {
                self.size = size;
                self.draw_buffer = canvas.draw_buffer;
                self.active_buffer = canvas.active_buffer;
                self.force_render_once = true;
                true
            },
            None => false,
        }
    }

    /// Makes the next render paint every cell.
    pub fn force_render_once(&mut self)
        ensures
            final(self).forced(),
            final(self).size() == old(self).size(),
            final(self).draw() == old(self).draw(),
            final(self).active() == old(self).active(),
    {
        self.force_render_once = true;
    }

    /// Whether the next render paints every cell.
    pub fn is_forced(&self) -> (r: bool)
        ensures
            r == self.forced(),
    {
        self.force_render_once
    }

    /// Width and height of the grid.
    pub fn get_size(&self) -> (r: Size)
        ensures
            r == self.size(),
    {
        self.size
    }

    /// The whole grid as a rectangle.
    pub fn frame(&self) -> (r: Rect)
        ensures
            r == (Rect { origin: Point { x: 0, y: 0 }, size: self.size() }),
    {
        Rect::from_size(self.size)
    }

    /// Position of the cell at column `x`, row `y` in either buffer.
    fn index(&self, x: usize, y: usize) -> (r: usize)
        requires
            self.wf(),
            self.on_grid(x as int, y as int),
        ensures
            r == cell_index(self.size().width as int, x as int, y as int),
            r < self.draw().len(),
            r < self.active().len(),
    {
        let width: usize = self.size.width;
        let len: usize = self.draw_buffer.len();
        proof {
            lemma_cell_index(width as int, self.size.height as int, x as int, y as int);
            assert(0 <= y * width) by (nonlinear_arith)
                requires
                    0 <= y,
                    0 <= width,
            ;
        }
        y * width + x
    }

    /// The desired cell at `point`, or `None` where `point` is off the grid.
    pub fn draw_cell(&self, point: Point) -> (r: Option<Cell>)
        requires
            self.wf(),
        ensures
            r == if self.on_grid(point.x as int, point.y as int) {
                Some(self.draw_at(point.x as int, point.y as int))
            } else {
                None::<Cell>
            },
    {
        if point.x < self.size.width && point.y < self.size.height {
            Some(self.draw_buffer[self.index(point.x, point.y)])
        } else {
            None
        }
    }

    /// The painted cell at `point`, or `None` where `point` is off the grid.
    pub fn active_cell(&self, point: Point) -> (r: Option<Cell>)
        requires
            self.wf(),
        ensures
            r == if self.on_grid(point.x as int, point.y as int) {
                Some(self.active_at(point.x as int, point.y as int))
            } else {
                None::<Cell>
            },
    {
        if point.x < self.size.width && point.y < self.size.height {
            Some(self.active_buffer[self.index(point.x, point.y)])
        } else {
            None
        }
    }

    /// Replaces the desired cell at column `x`, row `y`.
    fn put(&mut self, x: usize, y: usize, cell: Cell)
        requires
            old(self).wf(),
            old(self).on_grid(x as int, y as int),
        ensures
            final(self).wf(),
            final(self).size() == old(self).size(),
            final(self).active() == old(self).active(),
            final(self).forced() == old(self).forced(),
            forall|i: int, j: int|
                final(self).on_grid(i, j) ==> #[trigger] final(self).draw_at(i, j) == if i == x && j
                    == y {
                    cell
                } else {
                    old(self).draw_at(i, j)
                },
    {
        let width: usize = self.size.width;
        let index: usize = self.index(x, y);
        self.draw_buffer.set(index, cell);
        proof {
            assert forall|i: int, j: int| self.on_grid(i, j) implies #[trigger] self.draw_at(i, j)
                == if i == x && j == y {
                cell
            } else {
                old(self).draw_at(i, j)
            } by {
                lemma_cell_index(width as int, self.size.height as int, i, j);
                lemma_cell_index(width as int, self.size.height as int, x as int, y as int);
            }
        }
    }

    /// Applies `change` to every desired cell of `rect` that lies on the
    /// grid. All other cells stay as they are.
    pub fn apply(&mut self, rect: &Rect, change: CellChange)
        requires
            old(self).wf(),
        ensures
            final(self).wf(),
            final(self).same_outside(old(self), *rect),
            forall|x: int, y: int|
                final(self).on_grid(x, y) && rect.covers(x, y) ==> #[trigger] final(self).draw_at(
                    x,
                    y,
                ) == change.changed(old(self).draw_at(x, y)),
    {
        let x_end: usize = if rect.max_x() < self.size.width {
            rect.max_x()
        } else {
            self.size.width
        };
        let y_end: usize = if rect.max_y() < self.size.height {
            rect.max_y()
        } else {
            self.size.height
        };
        let mut y: usize = rect.origin.y;
        while y < y_end
            invariant
                self.wf(),
                self.size() == old(self).size(),
                self.active() == old(self).active(),
                self.forced() == old(self).forced(),
                rect.origin.y <= y,
                x_end == min_int(rect.right(), self.size().width as int),
                y_end == min_int(rect.bottom(), self.size().height as int),
                forall|i: int, j: int|
                    self.on_grid(i, j) ==> #[trigger] self.draw_at(i, j) == if rect.covers(i, j)
                        && j < y {
                        change.changed(old(self).draw_at(i, j))
                    } else {
                        old(self).draw_at(i, j)
                    },
            decreases y_end - y,
        {
            let mut x: usize = rect.origin.x;
            while x < x_end
                invariant
                    self.wf(),
                    self.size() == old(self).size(),
                    self.active() == old(self).active(),
                    self.forced() == old(self).forced(),
                    rect.origin.y <= y < y_end,
                    rect.origin.x <= x,
                    x_end == min_int(rect.right(), self.size().width as int),
                    y_end == min_int(rect.bottom(), self.size().height as int),
                    forall|i: int, j: int|
                        self.on_grid(i, j) ==> #[trigger] self.draw_at(i, j) == if rect.covers(i, j)
                            && (j < y || (j == y && i < x)) {
                            change.changed(old(self).draw_at(i, j))
                        } else {
                            old(self).draw_at(i, j)
                        },
                decreases x_end - x,
            {
                let cell = self.draw_buffer[self.index(x, y)];
                self.put(x, y, change.apply_to(cell));
                x = x + 1;
            }
            y = y + 1;
        }
    }

    /// Makes every cell of `rect` show `glyph`.
    pub fn fill_glyph(&mut self, rect: &Rect, glyph: char)
        requires
            old(self).wf(),
        ensures
            final(self).wf(),
            final(self).same_outside(old(self), *rect),
            forall|x: int, y: int|
                final(self).on_grid(x, y) && rect.covers(x, y) ==> #[trigger] final(self).draw_at(
                    x,
                    y,
                ) == (Cell { glyph: Some(glyph), ..old(self).draw_at(x, y) }),
    {
        self.apply(rect, CellChange::Glyph(glyph));
    }

    pub fn fill_background(&mut self, rect: &Rect, color: &Color)
        requires
            old(self).wf(),
        ensures
            final(self).wf(),
            final(self).same_outside(old(self), *rect),
            forall|x: int, y: int|
                final(self).on_grid(x, y) && rect.covers(x, y) ==> #[trigger] final(self).draw_at(
                    x,
                    y,
                ) == (Cell { bg: Some(*color), ..old(self).draw_at(x, y) }),
    {
        self.apply(rect, CellChange::Background(*color));
    }

    pub fn fill_foreground(&mut self, rect: &Rect, color: &Color)
        requires
            old(self).wf(),
        ensures
            final(self).wf(),
            final(self).same_outside(old(self), *rect),
            forall|x: int, y: int|
                final(self).on_grid(x, y) && rect.covers(x, y) ==> #[trigger] final(self).draw_at(
                    x,
                    y,
                ) == (Cell { fg: Some(*color), ..old(self).draw_at(x, y) }),
    {
        self.apply(rect, CellChange::Foreground(*color));
    }

    /// Adds `attributes` to those of every cell of `rect`, so that a style
    /// nested in another does not remove what the outer one set.
    pub fn merge_attributes(&mut self, rect: &Rect, attributes: Attributes)
        requires
            old(self).wf(),
        ensures
            final(self).wf(),
            final(self).same_outside(old(self), *rect),
            forall|x: int, y: int|
                final(self).on_grid(x, y) && rect.covers(x, y) ==> #[trigger] final(self).draw_at(
                    x,
                    y,
                ) == (Cell {
                    attrs: old(self).draw_at(x, y).attrs.merged(attributes),
                    ..old(self).draw_at(x, y)
                }),
    {
        self.apply(rect, CellChange::MergeAttributes(attributes));
    }

    pub fn overwrite_attributes(&mut self, rect: &Rect, attributes: Attributes)
        requires
            old(self).wf(),
        ensures
            final(self).wf(),
            final(self).same_outside(old(self), *rect),
            forall|x: int, y: int|
                final(self).on_grid(x, y) && rect.covers(x, y) ==> #[trigger] final(self).draw_at(
                    x,
                    y,
                ) == (Cell { attrs: attributes, ..old(self).draw_at(x, y) }),
    {
        self.apply(rect, CellChange::SetAttributes(attributes));
    }

    pub fn clear_attributes(&mut self, rect: &Rect)
        requires
            old(self).wf(),
        ensures
            final(self).wf(),
            final(self).same_outside(old(self), *rect),
            forall|x: int, y: int|
                final(self).on_grid(x, y) && rect.covers(x, y) ==> #[trigger] final(self).draw_at(
                    x,
                    y,
                ) == (Cell { attrs: Attributes { bits: 0 }, ..old(self).draw_at(x, y) }),
    {
        self.apply(rect, CellChange::ClearAttributes);
    }

    /// Writes the first `count` characters of `data` into the desired cells
    /// of one row, starting at `point` and going right. What falls off the
    /// grid is dropped. Only the characters of the cells are replaced; their
    /// styles stay.
    pub fn write_prefix(&mut self, point: &Point, data: &str, count: usize)
        requires
            old(self).wf(),
        ensures
            final(self).wf(),
            final(self).size() == old(self).size(),
            final(self).active() == old(self).active(),
            final(self).forced() == old(self).forced(),
            forall|x: int, y: int|
                final(self).on_grid(x, y) ==> #[trigger] final(self).draw_at(x, y) == if y
                    == point.y && point.x <= x < point.x + min_int(
                    count as int,
                    data@.len() as int,
                ) {
                    Cell { glyph: Some(data@[x - point.x]), ..old(self).draw_at(x, y) }
                } else {
                    old(self).draw_at(x, y)
                },
    {
        if point.y >= self.size.height || point.x >= self.size.width {
            return ;
        }
        let room: usize = self.size.width - point.x;
        let len: usize = min_usize(min_usize(count, data.unicode_len()), room);
        let mut i: usize = 0;
        while i < len
            invariant
                self.wf(),
                self.size() == old(self).size(),
                self.active() == old(self).active(),
                self.forced() == old(self).forced(),
                point.x < self.size().width,
                point.y < self.size().height,
                0 <= i <= len,
                len == min_int(
                    min_int(count as int, data@.len() as int),
                    self.size().width - point.x,
                ),
                forall|x: int, y: int|
                    self.on_grid(x, y) ==> #[trigger] self.draw_at(x, y) == if y == point.y
                        && point.x <= x < point.x + i {
                        Cell { glyph: Some(data@[x - point.x]), ..old(self).draw_at(x, y) }
                    } else {
                        old(self).draw_at(x, y)
                    },
            decreases len - i,
        {
            let x: usize = point.x + i;
            let cell = self.draw_buffer[self.index(x, point.y)];
            let glyph = data.get_char(i);
            self.put(x, point.y, Cell { glyph: Some(glyph), fg: cell.fg, bg: cell.bg, attrs: cell.attrs });
            i = i + 1;
        }
    }

    /// Makes `glyph` the character of the desired cell at `point`, if that
    /// cell lies on the grid.
    pub fn write_char(&mut self, point: &Point, glyph: char)
        requires
            old(self).wf(),
        ensures
            final(self).wf(),
            final(self).size() == old(self).size(),
            final(self).active() == old(self).active(),
            final(self).forced() == old(self).forced(),
            forall|x: int, y: int|
                final(self).on_grid(x, y) ==> #[trigger] final(self).draw_at(x, y) == if y
                    == point.y && x == point.x {
                    Cell { glyph: Some(glyph), ..old(self).draw_at(x, y) }
                } else {
                    old(self).draw_at(x, y)
                },
    {
        if point.y < self.size.height && point.x < self.size.width {
            let cell = self.draw_buffer[self.index(point.x, point.y)];
            self.put(
                point.x,
                point.y,
                Cell { glyph: Some(glyph), fg: cell.fg, bg: cell.bg, attrs: cell.attrs },
            );
        }
    }

    /// Writes `data` into the desired cells of one row, starting at `point`
    /// and going right, clipped to the grid.
    pub fn write(&mut self, point: &Point, data: &str)
        requires
            old(self).wf(),
        ensures
            final(self).wf(),
            final(self).size() == old(self).size(),
            final(self).active() == old(self).active(),
            final(self).forced() == old(self).forced(),
            forall|x: int, y: int|
                final(self).on_grid(x, y) ==> #[trigger] final(self).draw_at(x, y) == if y
                    == point.y && point.x <= x < point.x + data@.len() {
                    Cell { glyph: Some(data@[x - point.x]), ..old(self).draw_at(x, y) }
                } else {
                    old(self).draw_at(x, y)
                },
    {
        self.write_prefix(point, data, data.unicode_len());
    }

    /// Brings the terminal up to date with the desired cells.
    ///
    /// The cells are visited row by row. A cell that differs from what the
    /// terminal shows, or any cell while a full repaint is forced, is painted:
    /// the cursor is moved if it is not already there, each of attributes,
    /// background and foreground is switched if it differs from the pen, and
    /// the character is printed. The instructions assume that the driver
    /// starts them with the cursor on the top-left cell and the style reset.
    ///
    /// Afterwards the painted buffer holds what was desired, every desired
    /// cell is blank again, and no repaint is forced any more.
    pub fn render(&mut self) -> (ops: Vec<Instruction>)
        requires
            old(self).wf(),
        ensures
            final(self).wf(),
            final(self).size() == old(self).size(),
            ops@ == render_ops(
                old(self).draw(),
                old(self).active(),
                old(self).forced(),
                old(self).size().width as int,
                old(self).draw().len() as int,
            ),
            final(self).active() == old(self).draw(),
            final(self).draw() == blank_cells(old(self).draw().len()),
            !final(self).forced(),
    {
        let n: usize = self.draw_buffer.len();
        let width: usize = self.size.width;
        let force: bool = self.force_render_once;
        let ghost draw0 = self.draw_buffer@;
        let ghost active0 = self.active_buffer@;
        let mut ops: Vec<Instruction> = Vec::new();
        let mut pen = Pen {
            cursor: Point { x: 0, y: 0 },
            attrs: Attributes::none(),
            bg: Color::Reset,
            fg: Color::Reset,
        };
        let mut index: usize = 0;
        while index < n
            invariant
                self.wf(),
                self.size() == old(self).size(),
                self.forced() == force,
                width == self.size().width,
                n == draw0.len(),
                n == active0.len(),
                self.draw_buffer@.len() == n,
                self.active_buffer@.len() == n,
                0 <= index <= n,
                pen == render_pen(draw0, active0, force, width as int, index as int),
                ops@ == render_ops(draw0, active0, force, width as int, index as int),
                forall|j: int| 0 <= j < index ==> #[trigger] self.draw_buffer@[j] == Cell::blank(),
                forall|j: int| 0 <= j < index ==> #[trigger] self.active_buffer@[j] == draw0[j],
                forall|j: int| index <= j < n ==> #[trigger] self.draw_buffer@[j] == draw0[j],
                forall|j: int| index <= j < n ==> #[trigger] self.active_buffer@[j] == active0[j],
            decreases n - index,
        {
            let cell = self.draw_buffer[index];
            let shown = self.active_buffer[index];
            if force || cell != shown {
                proof {
                    lemma_point_of(width as int, self.size().height as int, index as int);
                }
                let at = Point { x: index % width, y: index / width };
                pen = paint_cell(&mut ops, pen, at, cell);
                self.active_buffer.set(index, cell);
            }
            self.draw_buffer.set(index, Cell::default());
            index = index + 1;
        }
        self.force_render_once = false;
        ops
    }
}

/// Appends the cursor move that painting at `at` needs, if any.
fn move_pen(ops: &mut Vec<Instruction>, pen: Pen, at: Point)
    ensures
        final(ops)@ == old(ops)@ + cursor_ops(pen, at),
{
    if pen.cursor != at {
        ops.push(Instruction::MoveCursor { x: at.x, y: at.y });
        assert(ops@ =~= old(ops)@ + cursor_ops(pen, at));
    } else {
        assert(ops@ =~= old(ops)@ + cursor_ops(pen, at));
    }
}

/// Appends the attribute switch that painting `cell` needs, if any, and
/// gives the pen with the attributes of the cell.
fn switch_attrs(ops: &mut Vec<Instruction>, pen: Pen, cell: Cell) -> (after: Pen)
    ensures
        final(ops)@ == old(ops)@ + attr_ops(pen, cell),
        after == pen_with_attrs(pen, cell),
{
    if cell.attrs != pen.attrs {
        let reset = !pen.attrs.is_empty();
        ops.push(Instruction::SetAttributes { attributes: cell.attrs, reset });
        assert(ops@ =~= old(ops)@ + attr_ops(pen, cell));
        if reset {
            Pen { cursor: pen.cursor, attrs: cell.attrs, bg: Color::Reset, fg: Color::Reset }
        } else {
            Pen { cursor: pen.cursor, attrs: cell.attrs, bg: pen.bg, fg: pen.fg }
        }
    } else {
        assert(ops@ =~= old(ops)@ + attr_ops(pen, cell));
        pen
    }
}

/// Appends the colour switches that painting `cell` needs, if any.
fn switch_colors(ops: &mut Vec<Instruction>, pen: Pen, cell: Cell)
    ensures
        final(ops)@ == old(ops)@ + bg_ops(pen, cell) + fg_ops(pen, cell),
{
    let bg = match cell.bg {
        Some(c) => c,
        None => Color::Reset,
    };
    if bg != pen.bg {
        ops.push(Instruction::SetBackground(bg));
    }
    assert(ops@ =~= old(ops)@ + bg_ops(pen, cell));
    let ghost backed = ops@;
    let fg = match cell.fg {
        Some(c) => c,
        None => Color::Reset,
    };
    if fg != pen.fg {
        ops.push(Instruction::SetForeground(fg));
    }
    assert(ops@ =~= backed + fg_ops(pen, cell));
}

/// Appends the instructions that paint `cell` at `at` with `pen`, and gives
/// the pen as it is afterwards.
fn paint_cell(ops: &mut Vec<Instruction>, pen: Pen, at: Point, cell: Cell) -> (after: Pen)
    requires
        at.x < usize::MAX,
    ensures
        final(ops)@ == old(ops)@ + cell_ops(pen, at, cell),
        after == pen_after(at, cell),
{
    move_pen(ops, pen, at);
    let styled = switch_attrs(ops, pen, cell);
    switch_colors(ops, styled, cell);
    let glyph = match cell.glyph {
        Some(c) => c,
        None => ' ',
    };
    ops.push(Instruction::Print(glyph));
    assert(ops@ =~= old(ops)@ + cell_ops(pen, at, cell));
    Pen {
        cursor: Point { x: at.x + 1, y: at.y },
        attrs: cell.attrs,
        bg: match cell.bg {
            Some(c) => c,
            None => Color::Reset,
        },
        fg: match cell.fg {
            Some(c) => c,
            None => Color::Reset,
        },
    }
}

/// Rendering a canvas whose desired cells are what the terminal already
/// shows, with no repaint forced, emits nothing.
pub proof fn lemma_render_unchanged_is_silent(cells: Seq<Cell>, width: int, k: int)
    requires
        0 <= k <= cells.len(),
    ensures
        render_ops(cells, cells, false, width, k) == Seq::<Instruction>::empty(),
    decreases k,
{
    if k > 0 {
        lemma_render_unchanged_is_silent(cells, width, k - 1);
    }
}

/// A second render right after a first one emits nothing, provided the
/// first one painted a blank grid: rendering leaves every desired cell blank, so
/// the second render compares blank cells with what the first one painted.
pub proof fn lemma_second_render_is_silent(first: Canvas, second: Canvas)
    requires
        first.wf(),
        second.wf(),
        first.draw() == blank_cells(first.draw().len()),
        second.size() == first.size(),
        second.active() == first.draw(),
        second.draw() == blank_cells(first.draw().len()),
        !second.forced(),
    ensures
        render_ops(
            second.draw(),
            second.active(),
            second.forced(),
            second.size().width as int,
            second.draw().len() as int,
        ) == Seq::<Instruction>::empty(),
{
    lemma_render_unchanged_is_silent(
        second.draw(),
        second.size().width as int,
        second.draw().len() as int,
    );
}

/// What a list of instructions prints is what its parts print, one after
/// the other.
pub proof fn lemma_printed_concat(a: Seq<Instruction>, b: Seq<Instruction>)
    ensures
        printed(a + b) == printed(a) + printed(b),
    decreases b.len(),
{
    if b.len() == 0 {
    } else {
        lemma_printed_concat(a, b.drop_last());
        assert((a + b).drop_last() =~= a + b.drop_last());
        match b.last() {
            Instruction::Print(c) => {
            },
            _ => {},
        }
    }
}

/// Painting one cell prints exactly its character.
pub proof fn lemma_cell_ops_print(pen: Pen, at: Point, cell: Cell)
    ensures
        printed(cell_ops(pen, at, cell)) == seq![cell.shown()],
{
    let styled = pen_with_attrs(pen, cell);
    let head = cursor_ops(pen, at) + attr_ops(pen, cell) + bg_ops(styled, cell) + fg_ops(
        styled,
        cell,
    );
    lemma_printed_concat(
        cursor_ops(pen, at) + attr_ops(pen, cell) + bg_ops(styled, cell),
        fg_ops(styled, cell),
    );
    lemma_printed_concat(cursor_ops(pen, at) + attr_ops(pen, cell), bg_ops(styled, cell));
    lemma_printed_concat(cursor_ops(pen, at), attr_ops(pen, cell));
    lemma_printed_single(cursor_ops(pen, at));
    lemma_printed_single(attr_ops(pen, cell));
    lemma_printed_single(bg_ops(styled, cell));
    lemma_printed_single(fg_ops(styled, cell));
    lemma_printed_concat(head, seq![Instruction::Print(cell.shown())]);
    lemma_printed_single(seq![Instruction::Print(cell.shown())]);
}

/// What a list of at most one instruction prints.
pub proof fn lemma_printed_single(ops: Seq<Instruction>)
    requires
        ops.len() <= 1,
    ensures
        ops.len() == 0 ==> printed(ops) == Seq::<char>::empty(),
        ops.len() == 1 ==> printed(ops) == match ops[0] {
            Instruction::Print(c) => seq![c],
            _ => Seq::<char>::empty(),
        },
{
    if ops.len() == 1 {
        assert(printed(ops.drop_last()) == Seq::<char>::empty());
        match ops[0] {
            Instruction::Print(c) => {
            },
            _ => {},
        }
    }
}

/// The render that follows a resize, or any other forced one, prints every
/// cell of the grid.
pub proof fn lemma_forced_canvas_paints_all(canvas: Canvas)
    requires
        canvas.wf(),
        canvas.forced(),
    ensures
        printed(
            render_ops(
                canvas.draw(),
                canvas.active(),
                canvas.forced(),
                canvas.size().width as int,
                canvas.draw().len() as int,
            ),
        ) == shown_cells(canvas.draw(), canvas.draw().len() as int),
        printed(
            render_ops(
                canvas.draw(),
                canvas.active(),
                canvas.forced(),
                canvas.size().width as int,
                canvas.draw().len() as int,
            ),
        ).len() == canvas.size().width * canvas.size().height,
{
    lemma_forced_render_paints_all(
        canvas.draw(),
        canvas.active(),
        canvas.size().width as int,
        canvas.draw().len() as int,
    );
}

/// A forced render prints every cell of the grid, in row-major order,
/// whatever the terminal showed before.
pub proof fn lemma_forced_render_paints_all(
    draw: Seq<Cell>,
    active: Seq<Cell>,
    width: int,
    k: int,
)
    requires
        0 <= k <= draw.len(),
    ensures
        printed(render_ops(draw, active, true, width, k)) == shown_cells(draw, k),
    decreases k,
{
    if k > 0 {
        lemma_forced_render_paints_all(draw, active, width, k - 1);
        let before = render_ops(draw, active, true, width, k - 1);
        let ops = cell_ops(
            render_pen(draw, active, true, width, k - 1),
            point_of(width, k - 1),
            draw[k - 1],
        );
        lemma_printed_concat(before, ops);
        lemma_cell_ops_print(
            render_pen(draw, active, true, width, k - 1),
            point_of(width, k - 1),
            draw[k - 1],
        );
    }
}

} // verus!
