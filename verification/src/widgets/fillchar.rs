//! A widget that fills its frame with one character.

use vstd::prelude::*;
use crate::canvas::Cell;
use crate::geometry::Size;
use crate::layout::{FlexFit, LayoutResult, LayoutSize, RenderResult};
use crate::render::RenderCtx;
use crate::widgets::{AnyEvent, Capability, EventResult, Widget};

verus! {

/// Shows the same character in every cell it is given.
pub struct FillChar {
    char: char,
}

impl FillChar {
    /// The character shown.
    pub closed spec fn glyph(&self) -> char {
        self.char
    }

    pub fn new(char: char) -> (r: Self)
        ensures
            r.glyph() == char,
    {
        FillChar { char }
    }
}

impl Widget for FillChar {
    /// All that is available, no less and no more.
    open spec fn layout_spec(&self, available: Size) -> LayoutResult {
        Ok(LayoutSize { min: available, max: available, flex: 0, fit: FlexFit::Tight })
    }

    open spec fn event_spec(&self, event: AnyEvent, size: Size) -> EventResult {
        EventResult::Unhandled
    }

    open spec fn capability_spec(&self, capability: &Capability) -> bool {
        false
    }

    /// Puts the character into every cell of the frame; the styles of the
    /// cells stay.
    open spec fn render_spec(
        &self,
        before: RenderCtx,
        after: RenderCtx,
        r: RenderResult,
    ) -> bool {
        &&& r is Ok
        &&& forall|x: int, y: int|
            before.frame().covers(x, y) ==> #[trigger] after.canvas().draw_at(x, y)
                == (Cell { glyph: Some(self.glyph()), ..before.canvas().draw_at(x, y) })
    }

    proof fn lemma_layout_within(&self, available: Size) {
    }

    fn event(&mut self, event: &AnyEvent, size: &Size) -> (r: EventResult)
        ensures
            *final(self) == *old(self),
    {
        EventResult::Unhandled
    }

    fn layout(&self, avail_size: &Size) -> (r: LayoutResult) {
        Ok(LayoutSize::min_max(*avail_size, *avail_size))
    }

    fn render(&self, ctx: &mut RenderCtx) -> (r: RenderResult) {
        ctx.renderer().fill(self.char);
        Ok(())
    }

    fn has_capability(&self, capability: &Capability) -> (r: bool) {
        false
    }
}

} // verus!
