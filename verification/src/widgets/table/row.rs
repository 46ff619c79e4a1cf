//! Table rows: a heading and a policy for the height.

use vstd::prelude::*;
use crate::geometry::Size;
use crate::layout::{LayoutResult, RenderResult};
use crate::render::RenderCtx;
use crate::util::Scoped;
use crate::widgets::{AnyEvent, Capability, EventResult, Widget};

verus! {

/// What the height of a row is measured from.
#[derive(Debug, Clone, Copy, PartialEq, Eq, Structural)]
pub enum RowHeightAuto {
    /// Nothing is measured.
    Off,
    /// The height of the highest cell of the row.
    Cells,
    /// The height of the heading.
    Heading,
    /// The higher of the highest cell and the heading.
    CellsOrHeading,
}

/// One bound of the height of a row.
#[derive(Debug, Clone, Copy, PartialEq, Eq, Structural)]
pub enum RowHeightValue {
    /// This many cells.
    Fixed(usize),
    /// The measured height.
    Auto,
    /// The height of the heading.
    Heading,
}

/// The height policy of a row: its bounds, what is measured, and the weight
/// with which the row takes part in the distribution of the height that is
/// left over.
#[derive(Debug, Clone, Copy, PartialEq, Eq, Structural)]
pub struct RowHeight {
    pub min: RowHeightValue,
    pub max: RowHeightValue,
    pub auto_mode: RowHeightAuto,
    /// Zero for a row that never grows.
    pub flex_weight: usize,
}

impl RowHeight {
    /// Exactly one cell high, measuring cells and heading, with weight one.
    pub fn new() -> (r: Self)
        ensures
            r == (RowHeight {
                min: RowHeightValue::Fixed(1),
                max: RowHeightValue::Fixed(1),
                auto_mode: RowHeightAuto::CellsOrHeading,
                flex_weight: 1,
            }),
    {
        RowHeight {
            min: RowHeightValue::Fixed(1),
            max: RowHeightValue::Fixed(1),
            auto_mode: RowHeightAuto::CellsOrHeading,
            flex_weight: 1,
        }
    }

    pub fn min(self, min: RowHeightValue) -> (r: Self)
        ensures
            r == (RowHeight { min, ..self }),
    {
        RowHeight { min, max: self.max, auto_mode: self.auto_mode, flex_weight: self.flex_weight }
    }

    pub fn min_auto(self) -> (r: Self)
        ensures
            r == (RowHeight { min: RowHeightValue::Auto, ..self }),
    {
        self.min(RowHeightValue::Auto)
    }

    pub fn min_heading(self) -> (r: Self)
        ensures
            r == (RowHeight { min: RowHeightValue::Heading, ..self }),
    {
        self.min(RowHeightValue::Heading)
    }

    pub fn min_fixed(self, min: usize) -> (r: Self)
        ensures
            r == (RowHeight { min: RowHeightValue::Fixed(min), ..self }),
    {
        self.min(RowHeightValue::Fixed(min))
    }

    pub fn max(self, max: RowHeightValue) -> (r: Self)
        ensures
            r == (RowHeight { max, ..self }),
    {
        RowHeight { min: self.min, max, auto_mode: self.auto_mode, flex_weight: self.flex_weight }
    }

    pub fn max_heading(self) -> (r: Self)
        ensures
            r == (RowHeight { max: RowHeightValue::Heading, ..self }),
    {
        self.max(RowHeightValue::Heading)
    }

    pub fn max_fixed(self, fixed: usize) -> (r: Self)
        ensures
            r == (RowHeight { max: RowHeightValue::Fixed(fixed), ..self }),
    {
        self.max(RowHeightValue::Fixed(fixed))
    }

    pub fn max_auto(self) -> (r: Self)
        ensures
            r == (RowHeight { max: RowHeightValue::Auto, ..self }),
    {
        self.max(RowHeightValue::Auto)
    }

    pub fn auto_mode(self, auto_mode: RowHeightAuto) -> (r: Self)
        ensures
            r == (RowHeight { auto_mode, ..self }),
    {
        RowHeight { min: self.min, max: self.max, auto_mode, flex_weight: self.flex_weight }
    }

    pub fn flex_weight(self, weight: usize) -> (r: Self)
        ensures
            r == (RowHeight { flex_weight: weight, ..self }),
    {
        RowHeight { min: self.min, max: self.max, auto_mode: self.auto_mode, flex_weight: weight }
    }

    /// Same as [`RowHeight::flex_weight`].
    pub fn flex(self, weight: usize) -> (r: Self)
        ensures
            r == (RowHeight { flex_weight: weight, ..self }),
    {
        self.flex_weight(weight)
    }
}

impl Default for RowHeight {
    fn default() -> (r: Self)
        ensures
            r == (RowHeight {
                min: RowHeightValue::Fixed(1),
                max: RowHeightValue::Fixed(1),
                auto_mode: RowHeightAuto::CellsOrHeading,
                flex_weight: 1,
            }),
    {
        RowHeight::new()
    }
}

/// A row of a table.
pub struct Row<Heading> {
    pub heading: Heading,
    pub height: RowHeight,
}

impl<Heading: Widget> Row<Heading> {
    /// A row with the default height policy.
    pub fn new(heading: Heading) -> (r: Self)
        ensures
            r.heading == heading,
            r.height == (RowHeight {
                min: RowHeightValue::Fixed(1),
                max: RowHeightValue::Fixed(1),
                auto_mode: RowHeightAuto::CellsOrHeading,
                flex_weight: 1,
            }),
    {
        Row { heading, height: RowHeight::new() }
    }

    pub fn height(self, height: RowHeight) -> (r: Self)
        ensures
            r.heading == self.heading,
            r.height == height,
    {
        Row { heading: self.heading, height }
    }
}

impl<Heading: Widget> Widget for Row<Heading> {
    /// The range of the heading.
    open spec fn layout_spec(&self, available: Size) -> LayoutResult {
        self.heading.layout_spec(available)
    }

    /// A row heading does not react to input.
    open spec fn event_spec(&self, event: AnyEvent, size: Size) -> EventResult {
        EventResult::Unhandled
    }

    open spec fn capability_spec(&self, capability: &Capability) -> bool {
        false
    }

    /// Renders the heading into the whole frame.
    open spec fn render_spec(
        &self,
        before: RenderCtx,
        after: RenderCtx,
        r: RenderResult,
    ) -> bool {
        &&& after.rendered(&before, before.frame(), &self.heading, r)
    }

    proof fn lemma_layout_within(&self, available: Size) {
        self.heading.lemma_layout_within(available);
    }

    fn event(&mut self, event: &AnyEvent, size: &Size) -> (r: EventResult)
        ensures
            *final(self) == *old(self),
    {
        EventResult::Unhandled
    }

    fn layout(&self, avail_size: &Size) -> (r: LayoutResult) {
        self.heading.layout(avail_size)
    }

    fn render(&self, ctx: &mut RenderCtx) -> (r: RenderResult) {
        let frame = ctx.get_frame();
        ctx.render_child(frame, &self.heading)
    }

    fn has_capability(&self, capability: &Capability) -> (r: bool) {
        false
    }
}

/// A widget that can head a row: it has a height policy.
pub trait TableRow: Widget {
    /// The height policy of the row.
    spec fn height_spec(&self) -> RowHeight;

    fn get_height(&self) -> (r: RowHeight)
        ensures
            r == self.height_spec(),
    ;
}

impl<Heading: Widget> TableRow for Row<Heading> {
    open spec fn height_spec(&self) -> RowHeight {
        self.height
    }

    fn get_height(&self) -> (r: RowHeight) {
        self.height
    }
}

/// The rows of a table, in order.
pub trait TableRows {
    type Row: TableRow;

    /// Number of rows.
    spec fn len_spec(&self) -> usize;

    /// The row at `idx` can be asked for.
    spec fn has_row(&self, idx: usize) -> bool;

    /// `row` may be what asking for the row at `idx` yields.
    spec fn is_row(&self, idx: usize, row: Option<Scoped<'_, Self::Row>>) -> bool;

    fn len(&self) -> (r: usize)
        ensures
            r == self.len_spec(),
    ;

    /// The row at `idx`, or `None` where there is no such row.
    fn row(&self, idx: usize) -> (r: Option<Scoped<'_, Self::Row>>)
        requires
            self.has_row(idx),
        ensures
            self.is_row(idx, r),
    ;
}

impl<R: TableRow> TableRows for Vec<R> {
    type Row = R;

    open spec fn len_spec(&self) -> usize {
        self@.len() as usize
    }

    open spec fn has_row(&self, idx: usize) -> bool {
        true
    }

    open spec fn is_row(&self, idx: usize, row: Option<Scoped<'_, R>>) -> bool {
        if idx < self@.len() {
            row == Some(Scoped::Ref(&self@[idx as int]))
        } else {
            row is None
        }
    }

    fn len(&self) -> (r: usize) {
        Vec::len(self)
    }

    fn row(&self, idx: usize) -> (r: Option<Scoped<'_, R>>) {
        if idx < Vec::len(self) {
            Some(Scoped::Ref(&self[idx]))
        } else {
            None
        }
    }
}

/// Rows that a function makes when they are asked for.
pub struct TableRowsFn<F> {
    pub len: usize,
    pub fn_row: F,
}

impl<F> TableRowsFn<F> {
    /// `len` rows, of which `fn_row` makes the one at a given position.
    pub fn generator(len: usize, fn_row: F) -> (r: Self)
        ensures
            r.len == len,
            r.fn_row == fn_row,
    {
        TableRowsFn { len, fn_row }
    }
}

impl<R: TableRow + 'static, F: Fn(usize) -> Option<Scoped<'static, R>>> TableRows for TableRowsFn<F> {
    type Row = R;

    open spec fn len_spec(&self) -> usize {
        self.len
    }

    /// The function accepts `idx`.
    open spec fn has_row(&self, idx: usize) -> bool {
        call_requires(self.fn_row, (idx,))
    }

    /// The function may return `row` for `idx`.
    open spec fn is_row(&self, idx: usize, row: Option<Scoped<'_, R>>) -> bool {
        call_ensures(self.fn_row, (idx,), row)
    }

    fn len(&self) -> (r: usize) {
        self.len
    }

    fn row(&self, idx: usize) -> (r: Option<Scoped<'_, R>>) {
        (self.fn_row)(idx)
    }
}

/// No row headings at all: what a table has before it is given any.
impl TableRows for () {
    type Row = Row<()>;

    open spec fn len_spec(&self) -> usize {
        0
    }

    open spec fn has_row(&self, idx: usize) -> bool {
        true
    }

    open spec fn is_row(&self, idx: usize, row: Option<Scoped<'_, Row<()>>>) -> bool {
        row is None
    }

    fn len(&self) -> (r: usize) {
        0
    }

    fn row(&self, idx: usize) -> (r: Option<Scoped<'_, Row<()>>>) {
        None
    }
}

} // verus!
