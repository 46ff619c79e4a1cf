//! Table columns: a heading and a policy for the width.

use vstd::prelude::*;
use crate::geometry::Size;
use crate::layout::{LayoutResult, RenderResult};
use crate::render::RenderCtx;
use crate::widgets::{
    AnyEvent, Capability, Event, EventResult, MouseButton, MouseEventKind, Widget,
};

verus! {

/// What the width of a column is measured from.
#[derive(Debug, Clone, Copy, PartialEq, Eq, Structural)]
pub enum ColumnWidthAuto {
    /// Nothing is measured.
    Off,
    /// The width of the heading.
    Heading,
    /// The width of the widest cell of the column.
    AllCells,
    /// The width of the widest cell of the column among the rows that fit
    /// into the height of the table.
    VisibleCells,
    /// The wider of the widest cell and the heading.
    AllCellsOrHeading,
    /// The wider of the widest visible cell and the heading.
    VisibleCellsOrHeading,
}

/// One bound of the width of a column.
#[derive(Debug, Clone, Copy, PartialEq, Eq, Structural)]
pub enum ColumnWidthValue {
    /// This many cells.
    Fixed(usize),
    /// The measured width.
    Auto,
    /// The width of the heading.
    Heading,
}

/// The width policy of a column: its bounds, what is measured, and the
/// weight with which the column takes part in the distribution of the width
/// that is left over.
#[derive(Debug, Clone, Copy, PartialEq, Eq, Structural)]
pub struct ColumnWidth {
    pub min: ColumnWidthValue,
    pub max: ColumnWidthValue,
    pub auto_mode: ColumnWidthAuto,
    /// Zero for a column that never grows.
    pub flex_weight: usize,
}

impl ColumnWidth {
    /// At least one cell, at most the wider of the widest cell and the
    /// heading, growing with weight one.
    pub fn new() -> (r: Self)
        ensures
            r == (ColumnWidth {
                min: ColumnWidthValue::Fixed(1),
                max: ColumnWidthValue::Auto,
                auto_mode: ColumnWidthAuto::AllCellsOrHeading,
                flex_weight: 1,
            }),
    {
        ColumnWidth {
            min: ColumnWidthValue::Fixed(1),
            max: ColumnWidthValue::Auto,
            auto_mode: ColumnWidthAuto::AllCellsOrHeading,
            flex_weight: 1,
        }
    }

    /// A column of exactly `width` cells.
    pub fn fixed(width: usize) -> (r: Self)
        ensures
            r == (ColumnWidth {
                min: ColumnWidthValue::Fixed(width),
                max: ColumnWidthValue::Fixed(width),
                auto_mode: ColumnWidthAuto::Off,
                flex_weight: 0,
            }),
    {
        ColumnWidth {
            min: ColumnWidthValue::Fixed(width),
            max: ColumnWidthValue::Fixed(width),
            auto_mode: ColumnWidthAuto::Off,
            flex_weight: 0,
        }
    }

    pub fn min(self, min: ColumnWidthValue) -> (r: Self)
        ensures
            r == (ColumnWidth { min, ..self }),
    {
        ColumnWidth { min, max: self.max, auto_mode: self.auto_mode, flex_weight: self.flex_weight }
    }

    pub fn min_auto(self) -> (r: Self)
        ensures
            r == (ColumnWidth { min: ColumnWidthValue::Auto, ..self }),
    {
        self.min(ColumnWidthValue::Auto)
    }

    pub fn min_heading(self) -> (r: Self)
        ensures
            r == (ColumnWidth { min: ColumnWidthValue::Heading, ..self }),
    {
        self.min(ColumnWidthValue::Heading)
    }

    pub fn min_fixed(self, min: usize) -> (r: Self)
        ensures
            r == (ColumnWidth { min: ColumnWidthValue::Fixed(min), ..self }),
    {
        self.min(ColumnWidthValue::Fixed(min))
    }

    pub fn max(self, max: ColumnWidthValue) -> (r: Self)
        ensures
            r == (ColumnWidth { max, ..self }),
    {
        ColumnWidth { min: self.min, max, auto_mode: self.auto_mode, flex_weight: self.flex_weight }
    }

    pub fn max_heading(self) -> (r: Self)
        ensures
            r == (ColumnWidth { max: ColumnWidthValue::Heading, ..self }),
    {
        self.max(ColumnWidthValue::Heading)
    }

    pub fn max_fixed(self, fixed: usize) -> (r: Self)
        ensures
            r == (ColumnWidth { max: ColumnWidthValue::Fixed(fixed), ..self }),
    {
        self.max(ColumnWidthValue::Fixed(fixed))
    }

    pub fn max_auto(self) -> (r: Self)
        ensures
            r == (ColumnWidth { max: ColumnWidthValue::Auto, ..self }),
    {
        self.max(ColumnWidthValue::Auto)
    }

    pub fn auto_mode(self, auto_mode: ColumnWidthAuto) -> (r: Self)
        ensures
            r == (ColumnWidth { auto_mode, ..self }),
    {
        ColumnWidth { min: self.min, max: self.max, auto_mode, flex_weight: self.flex_weight }
    }

    pub fn flex_weight(self, weight: usize) -> (r: Self)
        ensures
            r == (ColumnWidth { flex_weight: weight, ..self }),
    {
        ColumnWidth { min: self.min, max: self.max, auto_mode: self.auto_mode, flex_weight: weight }
    }

    /// Same as [`ColumnWidth::flex_weight`].
    pub fn flex(self, weight: usize) -> (r: Self)
        ensures
            r == (ColumnWidth { flex_weight: weight, ..self }),
    {
        self.flex_weight(weight)
    }
}

impl Default for ColumnWidth {
    fn default() -> (r: Self)
        ensures
            r == (ColumnWidth {
                min: ColumnWidthValue::Fixed(1),
                max: ColumnWidthValue::Auto,
                auto_mode: ColumnWidthAuto::AllCellsOrHeading,
                flex_weight: 1,
            }),
    {
        ColumnWidth::new()
    }
}

/// A column of a table.
pub struct Column<Heading> {
    pub heading: Heading,
    pub width: ColumnWidth,
}

impl<Heading: Widget> Column<Heading> {
    /// A column with the default width policy.
    pub fn new(heading: Heading) -> (r: Self)
        ensures
            r.heading == heading,
            r.width == (ColumnWidth {
                min: ColumnWidthValue::Fixed(1),
                max: ColumnWidthValue::Auto,
                auto_mode: ColumnWidthAuto::AllCellsOrHeading,
                flex_weight: 1,
            }),
    {
        Column { heading, width: ColumnWidth::new() }
    }

    pub fn width(self, width: ColumnWidth) -> (r: Self)
        ensures
            r.heading == self.heading,
            r.width == width,
    {
        Column { heading: self.heading, width }
    }
}

/// The event is a press of the middle mouse button without modifier keys.
pub open spec fn is_middle_click(event: AnyEvent) -> bool {
    event matches AnyEvent::Input(Event::Mouse(mouse)) && mouse.modifiers.none() && mouse.kind
        == MouseEventKind::Down(MouseButton::Middle)
}

/// The upper bound that a middle click switches to: from a fixed bound to
/// the measured width, from anything else to a single cell.
pub open spec fn toggled_max(max: ColumnWidthValue) -> ColumnWidthValue {
    match max {
        ColumnWidthValue::Fixed(_) => ColumnWidthValue::Auto,
        _ => ColumnWidthValue::Fixed(1),
    }
}

impl<Heading: Widget> Widget for Column<Heading> {
    /// The range of the heading.
    open spec fn layout_spec(&self, available: Size) -> LayoutResult {
        self.heading.layout_spec(available)
    }

    /// A middle click is handled; nothing else is.
    open spec fn event_spec(&self, event: AnyEvent, size: Size) -> EventResult {
        if is_middle_click(event) {
            EventResult::Done
        } else {
            EventResult::Unhandled
        }
    }

    open spec fn capability_spec(&self, capability: &Capability) -> bool {
        false
    }

    /// Renders the heading into the whole frame.
    open spec fn render_spec(
        &self,
        before: RenderCtx,
        after: RenderCtx,
        r: RenderResult,
    ) -> bool {
        &&& after.rendered(&before, before.frame(), &self.heading, r)
    }

    proof fn lemma_layout_within(&self, available: Size) {
        self.heading.lemma_layout_within(available);
    }

    fn event(&mut self, event: &AnyEvent, size: &Size) -> (r: EventResult)
        ensures
            final(self).heading == old(self).heading,
            final(self).width == (if is_middle_click(*event) {
                ColumnWidth { max: toggled_max(old(self).width.max), ..old(self).width }
            } else {
                old(self).width
            }),
    {
        match event {
            AnyEvent::Input(Event::Mouse(mouse)) => {
                if mouse.modifiers.is_empty() {
                    match mouse.kind {
                        MouseEventKind::Down(MouseButton::Middle) => {
                            self.width.max = match self.width.max {
                                ColumnWidthValue::Fixed(_) => ColumnWidthValue::Auto,
                                _ => ColumnWidthValue::Fixed(1),
                            };
                            EventResult::Done
                        },
                        _ => EventResult::Unhandled,
                    }
                } else {
                    EventResult::Unhandled
                }
            },
            _ => EventResult::Unhandled,
        }
    }

    fn layout(&self, avail_size: &Size) -> (r: LayoutResult) {
        self.heading.layout(avail_size)
    }

    fn render(&self, ctx: &mut RenderCtx) -> (r: RenderResult) {
        let frame = ctx.get_frame();
        ctx.render_child(frame, &self.heading)
    }

    fn has_capability(&self, capability: &Capability) -> (r: bool) {
        false
    }
}

/// A widget that can head a column: it has a width policy.
pub trait TableColumn: Widget {
    /// The width policy of the column.
    spec fn width_spec(&self) -> ColumnWidth;

    /// `after` is what the column may be once it has handled `event`.
    spec fn after_event(&self, after: &Self, event: AnyEvent, size: Size) -> bool;

    fn get_width(&self) -> (r: ColumnWidth)
        ensures
            r == self.width_spec(),
    ;

    /// Handles an event that fell into the column.
    fn handle_event(&mut self, event: &AnyEvent, size: &Size) -> (r: EventResult)
        ensures
            r == old(self).event_spec(*event, *size),
            old(self).after_event(final(self), *event, *size),
    ;
}

impl<Heading: Widget> TableColumn for Column<Heading> {
    open spec fn width_spec(&self) -> ColumnWidth {
        self.width
    }

    /// A middle click switches the upper bound of the width; nothing else
    /// changes the column.
    open spec fn after_event(&self, after: &Self, event: AnyEvent, size: Size) -> bool {
        after.heading == self.heading && after.width == (if is_middle_click(event) {
            ColumnWidth { max: toggled_max(self.width.max), ..self.width }
        } else {
            self.width
        })
    }

    fn get_width(&self) -> (r: ColumnWidth) {
        self.width
    }

    fn handle_event(&mut self, event: &AnyEvent, size: &Size) -> (r: EventResult) {
        self.event(event, size)
    }
}

/// The columns of a table, in order.
pub trait TableColumns {
    type Column: TableColumn;

    /// The columns.
    spec fn columns_spec(&self) -> Seq<Self::Column>;

    fn len(&self) -> (r: usize)
        ensures
            r == self.columns_spec().len(),
    ;

    /// The column at `idx`, or `None` where there are not that many.
    fn column(&self, idx: usize) -> (r: Option<&Self::Column>)
        ensures
            r is Some <==> idx < self.columns_spec().len(),
            r matches Some(column) ==> *column == self.columns_spec()[idx as int],
    ;

    /// Hands `event` to the column at `idx`. The other columns stay as they
    /// are. Where there is no such column, nothing happens and the event is
    /// not handled.
    fn column_event(&mut self, idx: usize, event: &AnyEvent, size: &Size) -> (r: EventResult)
        ensures
            final(self).columns_spec().len() == old(self).columns_spec().len(),
            forall|j: int|
                0 <= j < old(self).columns_spec().len() && j != idx
                    ==> #[trigger] final(self).columns_spec()[j] == old(self).columns_spec()[j],
            idx < old(self).columns_spec().len() ==> old(self).columns_spec()[idx as int].after_event(
                &final(self).columns_spec()[idx as int],
                *event,
                *size,
            ) && r == old(self).columns_spec()[idx as int].event_spec(*event, *size),
            idx >= old(self).columns_spec().len() ==> r == EventResult::Unhandled,
    ;
}

impl<C: TableColumn> TableColumns for Vec<C> {
    type Column = C;

    open spec fn columns_spec(&self) -> Seq<C> {
        self@
    }

    fn len(&self) -> (r: usize) {
        Vec::len(self)
    }

    fn column(&self, idx: usize) -> (r: Option<&C>) {
        if idx < Vec::len(self) {
            Some(&self[idx])
        } else {
            None
        }
    }

    fn column_event(&mut self, idx: usize, event: &AnyEvent, size: &Size) -> (r: EventResult) {
        if idx < Vec::len(self) {
            self[idx].handle_event(event, size)
        } else {
            EventResult::Unhandled
        }
    }
}

/// No columns at all: what a table has before it is given any.
impl TableColumns for () {
    type Column = Column<()>;

    open spec fn columns_spec(&self) -> Seq<Column<()>> {
        Seq::empty()
    }

    fn len(&self) -> (r: usize) {
        0
    }

    fn column(&self, idx: usize) -> (r: Option<&Column<()>>) {
        None
    }

    fn column_event(&mut self, idx: usize, event: &AnyEvent, size: &Size) -> (r: EventResult) {
        EventResult::Unhandled
    }
}

} // verus!
