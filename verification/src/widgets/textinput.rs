//! Text that the keyboard edits.

use vstd::prelude::*;
use crate::geometry::Size;
use crate::layout::{LayoutResult, RenderResult};
use crate::render::RenderCtx;
use crate::widgets::text::{Text, TextAlign, TextOverflow, TextWrap};
use crate::widgets::{AnyEvent, Capability, Event, EventResult, KeyCode, Widget};

verus! {

/// A text that grows with each key typed and shrinks with backspace.
pub struct TextInput {
    pub text: Text,
}

/// Appends `c` to `text` with `String::push`.
#[verifier::external_body]
fn push_char(text: &mut String, c: char)
    ensures
        final(text)@ == old(text)@.push(c),
{
    text.push(c);
}

/// Removes the last character of `text`, if it has one, with `String::pop`.
#[verifier::external_body]
fn pop_char(text: &mut String)
    ensures
        final(text)@ == if old(text)@.len() > 0 {
            old(text)@.drop_last()
        } else {
            old(text)@
        },
{
    text.pop();
}

/// What a key makes of the text `before`, or `None` where the key does not
/// edit: backspace removes the last character, enter adds a line feed, and a
/// character typed without modifier keys, or with shift alone, is added.
pub open spec fn edited(before: Seq<char>, event: AnyEvent) -> Option<Seq<char>> {
    match event {
        AnyEvent::Input(Event::Key(key)) => match key.code {
            KeyCode::Backspace => Some(
                if before.len() > 0 {
                    before.drop_last()
                } else {
                    before
                },
            ),
            KeyCode::Enter => Some(before.push('\n')),
            KeyCode::Char(c) => if key.modifiers.none() || key.modifiers.shift_only() {
                Some(before.push(c))
            } else {
                None
            },
            _ => None,
        },
        _ => None,
    }
}

impl TextInput {
    /// An input without text yet: what is typed is broken between words
    /// and aligned left.
    pub fn new() -> (r: Self)
        ensures
            r.text.data@ == Seq::<char>::empty(),
            r.text.wrap == TextWrap::Word,
            r.text.align == TextAlign::Left,
            r.text.overflow == TextOverflow::Fold,
    {
        proof {
            reveal_strlit("");
        }
        TextInput { text: Text::from_text("") }
    }

    /// The same input with `text` in place of its text.
    pub fn text(self, text: Text) -> (r: Self)
        ensures
            r.text == text,
    {
        TextInput { text }
    }

    pub fn with_text(text: Text) -> (r: Self)
        ensures
            r.text == text,
    {
        TextInput { text }
    }
}

impl Widget for TextInput {
    open spec fn layout_spec(&self, available: Size) -> LayoutResult {
        self.text.layout_spec(available)
    }

    /// A key that edits changes the text and is done; every other event
    /// leaves the text alone and is not handled.
    open spec fn event_spec(&self, event: AnyEvent, size: Size) -> EventResult {
        match edited(self.text.data@, event) {
            Some(_) => EventResult::Done,
            None => EventResult::Unhandled,
        }
    }

    open spec fn capability_spec(&self, capability: &Capability) -> bool {
        false
    }

    /// Renders the text into the whole frame.
    open spec fn render_spec(
        &self,
        before: RenderCtx,
        after: RenderCtx,
        r: RenderResult,
    ) -> bool {
        &&& after.rendered(&before, before.frame(), &self.text, r)
    }

    proof fn lemma_layout_within(&self, available: Size) {
    }

    fn event(&mut self, event: &AnyEvent, size: &Size) -> (r: EventResult)
        ensures
            final(self).text.wrap == old(self).text.wrap,
            final(self).text.align == old(self).text.align,
            final(self).text.overflow == old(self).text.overflow,
            final(self).text.data@ == match edited(old(self).text.data@, *event) {
                Some(text) => text,
                None => old(self).text.data@,
            },
    {
        match event {
            AnyEvent::Input(Event::Key(key)) => match key.code {
                KeyCode::Backspace => {
                    pop_char(&mut self.text.data);
                    EventResult::Done
                },
                KeyCode::Enter => {
                    push_char(&mut self.text.data, '\n');
                    EventResult::Done
                },
                KeyCode::Char(c) => {
                    if key.modifiers.is_empty() || key.modifiers.is_shift() {
                        push_char(&mut self.text.data, c);
                        EventResult::Done
                    } else {
                        EventResult::Unhandled
                    }
                },
                _ => EventResult::Unhandled,
            },
            _ => EventResult::Unhandled,
        }
    }

    fn layout(&self, avail_size: &Size) -> (r: LayoutResult) {
        self.text.layout(avail_size)
    }

    fn render(&self, ctx: &mut RenderCtx) -> (r: RenderResult) {
        let frame = ctx.get_frame();
        ctx.render_child(frame, &self.text)
    }

    fn has_capability(&self, capability: &Capability) -> (r: bool) {
        false
    }
}

} // verus!
