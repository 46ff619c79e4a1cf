//! Widgets: the parts a user interface is composed of.

pub mod align;
pub mod borderbox;
pub mod bordered;
pub mod borders;
pub mod button;
pub mod checkbox;
pub mod children;
pub mod column;
pub mod container;
pub mod expanded;
pub mod fillchar;
pub mod flexible;
pub mod leak;
pub mod linear;
pub mod min;
pub mod minimize;
pub mod number;
pub mod padding;
pub mod repeat;
pub mod rowview;
pub mod stack;
pub mod styled;
pub mod table;
pub mod text;
pub mod textinput;

pub use align::Align;
pub use borderbox::BorderBox;
pub use bordered::Bordered;
pub use borders::Borders;
pub use button::Button;
pub use checkbox::CheckBox;
pub use children::ChildrenStorage;
pub use column::Column;
pub use container::Container;
pub use expanded::{Expand, Expanded};
pub use fillchar::FillChar;
pub use flexible::Flexible;
pub use leak::Leak;
pub use min::Min;
pub use minimize::Minimize;
pub use padding::Padding;
pub use repeat::Repeat;
pub use rowview::RowView;
pub use stack::Stack;
pub use styled::Styled;
pub use table::Table;
pub use text::Text;
pub use textinput::TextInput;

use vstd::prelude::*;
use vstd::string::StrSliceExecFns;
use crate::geometry::{max_int, max_usize, min_int, min_usize, Size};
use crate::layout::{FlexFit, LayoutError, LayoutResult, LayoutSize, RenderResult};
use crate::render::RenderCtx;

verus! {

/// A property a widget may have.
pub enum Capability {
    Selectable,
    Custom(String),
}

/// What a widget made of an input event.
#[derive(Debug, Clone, Copy, PartialEq, Eq, Structural)]
pub enum EventResult {
    Unhandled,
    Done,
    LockMouseClick,
    PopupMenu,
}

/// A key of the keyboard.
#[derive(Debug, Clone, Copy, PartialEq, Eq, Structural)]
pub enum KeyCode {
    Backspace,
    Enter,
    Left,
    Right,
    Up,
    Down,
    Home,
    End,
    PageUp,
    PageDown,
    Tab,
    BackTab,
    Delete,
    Insert,
    F(u8),
    Char(char),
    Null,
    Esc,
}

/// The modifier keys held down during an event, one bit each.
#[derive(Debug, Clone, Copy, PartialEq, Eq, Structural)]
pub struct KeyModifiers {
    pub shift: bool,
    pub control: bool,
    pub alt: bool,
}

impl KeyModifiers {
    /// No modifier key is held down.
    pub open spec fn none(self) -> bool {
        !self.shift && !self.control && !self.alt
    }

    /// The shift key, and no other modifier key, is held down.
    pub open spec fn shift_only(self) -> bool {
        self.shift && !self.control && !self.alt
    }

    pub fn empty() -> (r: Self)
        ensures
            r.none(),
    {
        KeyModifiers { shift: false, control: false, alt: false }
    }

    pub fn is_empty(&self) -> (r: bool)
        ensures
            r == self.none(),
    {
        !self.shift && !self.control && !self.alt
    }

    pub fn is_shift(&self) -> (r: bool)
        ensures
            r == self.shift_only(),
    {
        self.shift && !self.control && !self.alt
    }
}

#[derive(Debug, Clone, Copy, PartialEq, Eq, Structural)]
pub struct KeyEvent {
    pub code: KeyCode,
    pub modifiers: KeyModifiers,
}

#[derive(Debug, Clone, Copy, PartialEq, Eq, Structural)]
pub enum MouseButton {
    Left,
    Right,
    Middle,
}

#[derive(Debug, Clone, Copy, PartialEq, Eq, Structural)]
pub enum MouseEventKind {
    Down(MouseButton),
    Up(MouseButton),
    Drag(MouseButton),
    Moved,
    ScrollDown,
    ScrollUp,
}

#[derive(Debug, Clone, Copy, PartialEq, Eq, Structural)]
pub struct MouseEvent {
    pub kind: MouseEventKind,
    pub column: u16,
    pub row: u16,
    pub modifiers: KeyModifiers,
}

/// An input event as the terminal driver reports it.
#[derive(Debug, Clone, Copy, PartialEq, Eq, Structural)]
pub enum Event {
    Key(KeyEvent),
    Mouse(MouseEvent),
    Resize(u16, u16),
}

/// An event dispatched into the widget tree.
#[derive(Debug, Clone, Copy, PartialEq, Eq, Structural)]
pub enum AnyEvent {
    Input(Event),
}

/// The interface of every widget: it reports the room it needs, paints
/// itself into the frame it is given, and reacts to input.
pub trait Widget {
    /// What `layout` reports when `available` is offered. A widget that
    /// does not say reports an unknown error.
    open spec fn layout_spec(&self, available: Size) -> LayoutResult {
        Err(LayoutError::Unknown)
    }

    /// What the widget reports when it is handed `event`. A widget that does
    /// not say handles nothing.
    open spec fn event_spec(&self, event: AnyEvent, size: Size) -> EventResult {
        EventResult::Unhandled
    }

    /// Whether the widget has `capability`. A widget that does not say has
    /// none.
    open spec fn capability_spec(&self, capability: &Capability) -> bool {
        false
    }

    /// What a render of the widget may do: leave `after` of `before` and
    /// report `result`. A widget that does not say may do anything that keeps
    /// to its frame.
    open spec fn render_spec(
        &self,
        before: RenderCtx,
        after: RenderCtx,
        result: RenderResult,
    ) -> bool {
        true
    }

    /// A reported range is in order and within what was offered. Every
    /// widget owes this to its parents, which rely on it.
    proof fn lemma_layout_within(&self, available: Size)
        ensures
            self.layout_spec(available) matches Ok(layout) ==> layout.within(available),
    ;

    /// Handles an input event for a widget that was rendered at `size`.
    fn event(&mut self, event: &AnyEvent, size: &Size) -> (r: EventResult)
        ensures
            r == old(self).event_spec(*event, *size),
    ;

    /// Reports the range of sizes the widget can take when `avail_size` is
    /// offered, or `InsufficientSpace` where that is too little.
    fn layout(&self, avail_size: &Size) -> (r: LayoutResult)
        ensures
            r == self.layout_spec(*avail_size),
    ;

    /// Paints the widget into the frame of `ctx`, and nowhere else.
    fn render(&self, ctx: &mut RenderCtx) -> (r: RenderResult)
        requires
            old(ctx).wf(),
        ensures
            final(ctx).confined(old(ctx)),
            self.render_spec(*old(ctx), *final(ctx), r),
    ;

    fn has_capability(&self, capability: &Capability) -> (r: bool)
        ensures
            r == self.capability_spec(capability),
    ;
}

/// The range that a single line of `len` characters reports: at least one
/// cell, at most the whole line as far as it fits, one row high. Where not
/// even one cell is offered, there is not enough space.
pub open spec fn line_layout(len: int, available: Size) -> LayoutResult {
    if available.fits(Size { width: 1, height: 1 }) {
        Ok(
            LayoutSize {
                min: Size { width: 1, height: 1 },
                max: Size { width: max_int(1, min_int(len, available.width as int)) as usize, height: 1 },
                flex: 0,
                fit: FlexFit::Tight,
            },
        )
    } else {
        Err(LayoutError::InsufficientSpace)
    }
}

/// A line as it is shown in `width` cells: the line itself where it fits,
/// else its start followed by an ellipsis, so that no text is cut off
/// without a sign.
pub open spec fn ellipsized(text: Seq<char>, width: int) -> Seq<char> {
    if text.len() <= width {
        text
    } else {
        text.take(max_int(width - 1, 0)).push('…')
    }
}

/// See [`line_layout`].
pub fn layout_line(len: usize, avail_size: &Size) -> (r: LayoutResult)
    ensures
        r == line_layout(len as int, *avail_size),
{
    if avail_size.contains(Size::new(1, 1)) {
        let width: usize = max_usize(1, min_usize(len, avail_size.width));
        Ok(LayoutSize::min_max(Size::new(1, 1), Size::new(width, 1)))
    } else {
        Err(LayoutError::InsufficientSpace)
    }
}

/// Writes `text` at the cursor of `ctx`, with an ellipsis in place of what
/// does not fit into the width of the frame.
pub fn render_line(text: &str, ctx: &mut RenderCtx) -> (r: RenderResult)
    requires
        old(ctx).wf(),
    ensures
        r is Ok,
        final(ctx).confined(old(ctx)),
        final(ctx).inner().wrote(
            &old(ctx).inner(),
            ellipsized(text@, old(ctx).frame().size.width as int),
        ),
{
    let width: usize = ctx.get_frame().size.width;
    let len: usize = text.unicode_len();
    if width < len {
        ctx.renderer().write_prefix(text, width - 1);
        ctx.renderer().write_char('…');
    } else {
        ctx.renderer().write(text);
    }
    Ok(())
}

impl<'a> Widget for &'a str {
    open spec fn layout_spec(&self, available: Size) -> LayoutResult {
        line_layout(self@.len() as int, available)
    }

    open spec fn event_spec(&self, event: AnyEvent, size: Size) -> EventResult {
        EventResult::Unhandled
    }

    open spec fn capability_spec(&self, capability: &Capability) -> bool {
        false
    }

    /// The text is written from the cursor on, as far as the width of the
    /// frame allows, with an ellipsis where it is cut.
    open spec fn render_spec(
        &self,
        before: RenderCtx,
        after: RenderCtx,
        r: RenderResult,
    ) -> bool {
        &&& r is Ok
        &&& after.inner().wrote(
            &before.inner(),
            ellipsized(self@, before.frame().size.width as int),
        )
    }

    proof fn lemma_layout_within(&self, available: Size) {
    }

    fn event(&mut self, event: &AnyEvent, size: &Size) -> (r: EventResult)
        ensures
            final(self)@ == old(self)@,
    {
        EventResult::Unhandled
    }

    fn layout(&self, avail_size: &Size) -> (r: LayoutResult) {
        layout_line(self.unicode_len(), avail_size)
    }

    fn render(&self, ctx: &mut RenderCtx) -> (r: RenderResult) {
        render_line(self, ctx)
    }

    fn has_capability(&self, capability: &Capability) -> (r: bool) {
        false
    }
}

impl Widget for String {
    open spec fn layout_spec(&self, available: Size) -> LayoutResult {
        line_layout(self@.len() as int, available)
    }

    open spec fn event_spec(&self, event: AnyEvent, size: Size) -> EventResult {
        EventResult::Unhandled
    }

    open spec fn capability_spec(&self, capability: &Capability) -> bool {
        false
    }

    /// The text is written from the cursor on, as far as the width of the
    /// frame allows, with an ellipsis where it is cut.
    open spec fn render_spec(
        &self,
        before: RenderCtx,
        after: RenderCtx,
        r: RenderResult,
    ) -> bool {
        &&& r is Ok
        &&& after.inner().wrote(
            &before.inner(),
            ellipsized(self@, before.frame().size.width as int),
        )
    }

    proof fn lemma_layout_within(&self, available: Size) {
    }

    fn event(&mut self, event: &AnyEvent, size: &Size) -> (r: EventResult)
        ensures
            final(self)@ == old(self)@,
    {
        EventResult::Unhandled
    }

    fn layout(&self, avail_size: &Size) -> (r: LayoutResult) {
        layout_line(self.as_str().unicode_len(), avail_size)
    }

    fn render(&self, ctx: &mut RenderCtx) -> (r: RenderResult) {
        render_line(self.as_str(), ctx)
    }

    fn has_capability(&self, capability: &Capability) -> (r: bool) {
        false
    }
}

impl Widget for char {
    /// One cell, where one is offered.
    open spec fn layout_spec(&self, available: Size) -> LayoutResult {
        line_layout(1, available)
    }

    open spec fn event_spec(&self, event: AnyEvent, size: Size) -> EventResult {
        EventResult::Unhandled
    }

    open spec fn capability_spec(&self, capability: &Capability) -> bool {
        false
    }

    /// The character is written at the cursor.
    open spec fn render_spec(
        &self,
        before: RenderCtx,
        after: RenderCtx,
        r: RenderResult,
    ) -> bool {
        &&& r is Ok
        &&& after.inner().wrote(&before.inner(), seq![*self])
    }

    proof fn lemma_layout_within(&self, available: Size) {
    }

    fn event(&mut self, event: &AnyEvent, size: &Size) -> (r: EventResult)
        ensures
            *final(self) == *old(self),
    {
        EventResult::Unhandled
    }

    fn layout(&self, avail_size: &Size) -> (r: LayoutResult) {
        layout_line(1, avail_size)
    }

    fn render(&self, ctx: &mut RenderCtx) -> (r: RenderResult) {
        ctx.renderer().write_char(*self);
        Ok(())
    }

    fn has_capability(&self, capability: &Capability) -> (r: bool) {
        false
    }
}

impl Widget for () {
    /// Nothing needs no room.
    open spec fn layout_spec(&self, available: Size) -> LayoutResult {
        Ok(
            LayoutSize {
                min: Size { width: 0, height: 0 },
                max: Size { width: 0, height: 0 },
                flex: 0,
                fit: FlexFit::Tight,
            },
        )
    }

    open spec fn event_spec(&self, event: AnyEvent, size: Size) -> EventResult {
        EventResult::Unhandled
    }

    open spec fn capability_spec(&self, capability: &Capability) -> bool {
        false
    }

    /// Nothing is painted.
    open spec fn render_spec(
        &self,
        before: RenderCtx,
        after: RenderCtx,
        r: RenderResult,
    ) -> bool {
        &&& r is Ok
        &&& after == before
    }

    proof fn lemma_layout_within(&self, available: Size) {
    }

    fn event(&mut self, event: &AnyEvent, size: &Size) -> (r: EventResult) {
        EventResult::Unhandled
    }

    fn layout(&self, avail_size: &Size) -> (r: LayoutResult) {
        Ok(LayoutSize::min_max(Size::zero(), Size::zero()))
    }

    fn render(&self, ctx: &mut RenderCtx) -> (r: RenderResult) {
        Ok(())
    }

    fn has_capability(&self, capability: &Capability) -> (r: bool) {
        false
    }
}

impl<T: Widget + ?Sized> Widget for Box<T> {
    open spec fn layout_spec(&self, available: Size) -> LayoutResult {
        (**self).layout_spec(available)
    }

    open spec fn event_spec(&self, event: AnyEvent, size: Size) -> EventResult {
        (**self).event_spec(event, size)
    }

    open spec fn capability_spec(&self, capability: &Capability) -> bool {
        (**self).capability_spec(capability)
    }

    /// Renders what is in the box into the whole frame. An error of its
    /// render is not passed on.
    open spec fn render_spec(
        &self,
        before: RenderCtx,
        after: RenderCtx,
        r: RenderResult,
    ) -> bool {
        &&& r is Ok
        &&& exists|reported: RenderResult| #[trigger]
            after.rendered(&before, before.frame(), &**self, reported)
    }

    proof fn lemma_layout_within(&self, available: Size) {
        (**self).lemma_layout_within(available);
    }

    fn event(&mut self, event: &AnyEvent, size: &Size) -> (r: EventResult) {
        (**self).event(event, size)
    }

    fn layout(&self, avail_size: &Size) -> (r: LayoutResult) {
        (**self).layout(avail_size)
    }

    fn render(&self, ctx: &mut RenderCtx) -> (r: RenderResult) {
        let frame = ctx.get_frame();
        let reported = ctx.render_child(frame, &**self);
        assert(ctx.rendered(old(ctx), frame, &**self, reported));
        Ok(())
    }

    fn has_capability(&self, capability: &Capability) -> (r: bool) {
        (**self).has_capability(capability)
    }
}

} // verus!
