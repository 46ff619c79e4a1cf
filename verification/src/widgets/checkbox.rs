//! A box that is marked or not.

use vstd::prelude::*;
use crate::geometry::Size;
use crate::layout::{LayoutResult, RenderResult};
use crate::render::RenderCtx;
use crate::widgets::{
    layout_line, line_layout, AnyEvent, Capability, Event, EventResult, MouseEventKind, Widget,
};

verus! {

/// A mark that a press of a mouse button switches on and off.
pub struct CheckBox {
    marked: bool,
    marked_glyph: char,
    unmarked_glyph: char,
}

impl CheckBox {
    /// Whether the box is marked.
    pub closed spec fn checked(&self) -> bool {
        self.marked
    }

    /// The character that the box shows.
    pub closed spec fn glyph(&self) -> char {
        if self.marked {
            self.marked_glyph
        } else {
            self.unmarked_glyph
        }
    }

    /// The characters for the marked and the unmarked box.
    pub closed spec fn glyphs(&self) -> (char, char) {
        (self.marked_glyph, self.unmarked_glyph)
    }

    /// An unmarked box.
    pub fn new() -> (r: Self)
        ensures
            !r.checked(),
            r.glyphs() == ('◉', '○'),
    {
        CheckBox { marked: false, marked_glyph: '◉', unmarked_glyph: '○' }
    }

    pub fn marked(self) -> (r: Self)
        ensures
            r.checked(),
            r.glyphs() == self.glyphs(),
    {
        CheckBox {
            marked: true,
            marked_glyph: self.marked_glyph,
            unmarked_glyph: self.unmarked_glyph,
        }
    }

    pub fn unmarked(self) -> (r: Self)
        ensures
            !r.checked(),
            r.glyphs() == self.glyphs(),
    {
        CheckBox {
            marked: false,
            marked_glyph: self.marked_glyph,
            unmarked_glyph: self.unmarked_glyph,
        }
    }

    pub fn is_marked(&self) -> (r: bool)
        ensures
            r == self.checked(),
    {
        self.marked
    }
}

/// The event is the press of a mouse button.
pub open spec fn is_mouse_down(event: AnyEvent) -> bool {
    event matches AnyEvent::Input(Event::Mouse(mouse)) && mouse.kind is Down
}

impl Widget for CheckBox {
    /// One cell.
    open spec fn layout_spec(&self, available: Size) -> LayoutResult {
        line_layout(1, available)
    }

    /// The press of a mouse button switches the mark; nothing else is
    /// handled.
    open spec fn event_spec(&self, event: AnyEvent, size: Size) -> EventResult {
        if is_mouse_down(event) {
            EventResult::Done
        } else {
            EventResult::Unhandled
        }
    }

    open spec fn capability_spec(&self, capability: &Capability) -> bool {
        false
    }

    /// Writes the character for the state of the box at the cursor.
    open spec fn render_spec(
        &self,
        before: RenderCtx,
        after: RenderCtx,
        r: RenderResult,
    ) -> bool {
        &&& r is Ok
        &&& after.inner().wrote(&before.inner(), seq![self.glyph()])
    }

    proof fn lemma_layout_within(&self, available: Size) {
    }

    fn event(&mut self, event: &AnyEvent, size: &Size) -> (r: EventResult)
        ensures
            final(self).glyphs() == old(self).glyphs(),
            final(self).checked() == (if is_mouse_down(*event) {
                !old(self).checked()
            } else {
                old(self).checked()
            }),
    {
        match event {
            AnyEvent::Input(Event::Mouse(mouse)) => match mouse.kind {
                MouseEventKind::Down(_) => {
                    self.marked = !self.marked;
                    EventResult::Done
                },
                _ => EventResult::Unhandled,
            },
            _ => EventResult::Unhandled,
        }
    }

    fn layout(&self, avail_size: &Size) -> (r: LayoutResult) {
        layout_line(1, avail_size)
    }

    fn render(&self, ctx: &mut RenderCtx) -> (r: RenderResult) {
        if self.marked {
            ctx.renderer().write_char(self.marked_glyph);
        } else {
            ctx.renderer().write_char(self.unmarked_glyph);
        }
        Ok(())
    }

    fn has_capability(&self, capability: &Capability) -> (r: bool) {
        false
    }
}

} // verus!
