//! Numbers as widgets: shown in decimal on one line.

use vstd::prelude::*;
use crate::geometry::Size;
use crate::layout::{LayoutResult, RenderResult};
use crate::render::RenderCtx;
use crate::widgets::{
    ellipsized, layout_line, line_layout, AnyEvent, Capability, EventResult, Widget,
};

verus! {

/// The character for a digit.
pub open spec fn digit(d: int) -> char {
    if d == 0 {
        '0'
    } else if d == 1 {
        '1'
    } else if d == 2 {
        '2'
    } else if d == 3 {
        '3'
    } else if d == 4 {
        '4'
    } else if d == 5 {
        '5'
    } else if d == 6 {
        '6'
    } else if d == 7 {
        '7'
    } else if d == 8 {
        '8'
    } else {
        '9'
    }
}

/// The digits of `n` in decimal, most significant first, without leading
/// zeros.
pub open spec fn decimal(n: nat) -> Seq<char>
    decreases n,
{
    if n < 10 {
        seq![digit(n as int)]
    } else {
        decimal(n / 10).push(digit((n % 10) as int))
    }
}

fn digit_char(d: usize) -> (r: char)
    requires
        d < 10,
    ensures
        r == digit(d as int),
{
    if d == 0 {
        '0'
    } else if d == 1 {
        '1'
    } else if d == 2 {
        '2'
    } else if d == 3 {
        '3'
    } else if d == 4 {
        '4'
    } else if d == 5 {
        '5'
    } else if d == 6 {
        '6'
    } else if d == 7 {
        '7'
    } else if d == 8 {
        '8'
    } else {
        '9'
    }
}

/// See [`decimal`].
pub fn digits_of(n: usize) -> (r: Vec<char>)
    ensures
        r@ == decimal(n as nat),
    decreases n,
{
    if n < 10 {
        let mut digits: Vec<char> = Vec::new();
        digits.push(digit_char(n));
        digits
    } else {
        let mut digits = digits_of(n / 10);
        digits.push(digit_char(n % 10));
        digits
    }
}

/// Writes `chars` at the cursor of `ctx`, with an ellipsis in place of what
/// does not fit into the width of the frame.
pub fn render_chars(chars: &Vec<char>, ctx: &mut RenderCtx) -> (r: RenderResult)
    requires
        old(ctx).wf(),
    ensures
        r is Ok,
        final(ctx).confined(old(ctx)),
        final(ctx).inner().wrote(
            &old(ctx).inner(),
            ellipsized(chars@, old(ctx).frame().size.width as int),
        ),
{
    let width: usize = ctx.get_frame().size.width;
    let len: usize = chars.len();
    let count: usize = if len <= width {
        len
    } else if width > 0 {
        width - 1
    } else {
        0
    };
    let ghost start = ctx.inner();
    let mut i: usize = 0;
    while i < count
        invariant
            0 <= i <= count <= len,
            len == chars@.len(),
            start == old(ctx).inner(),
            start.wf(),
            ctx.wf(),
            ctx.depth() == old(ctx).depth(),
            ctx.inner().wrote(&start, chars@.take(i as int)),
        decreases count - i,
    {
        ctx.renderer().write_char(chars[i]);
        i = i + 1;
    }
    if len > width {
        ctx.renderer().write_char('…');
    }
    Ok(())
}

impl Widget for usize {
    /// One line as long as the number has digits.
    open spec fn layout_spec(&self, available: Size) -> LayoutResult {
        line_layout(decimal(*self as nat).len() as int, available)
    }

    open spec fn event_spec(&self, event: AnyEvent, size: Size) -> EventResult {
        EventResult::Unhandled
    }

    open spec fn capability_spec(&self, capability: &Capability) -> bool {
        false
    }

    /// Writes the number in decimal at the cursor, with an ellipsis in place
    /// of the digits that do not fit into the width of the frame.
    open spec fn render_spec(
        &self,
        before: RenderCtx,
        after: RenderCtx,
        r: RenderResult,
    ) -> bool {
        &&& r is Ok
        &&& after.inner().wrote(
            &before.inner(),
            ellipsized(decimal(*self as nat), before.frame().size.width as int),
        )
    }

    proof fn lemma_layout_within(&self, available: Size) {
    }

    fn event(&mut self, event: &AnyEvent, size: &Size) -> (r: EventResult)
        ensures
            *final(self) == *old(self),
    {
        EventResult::Unhandled
    }

    fn layout(&self, avail_size: &Size) -> (r: LayoutResult) {
        let digits = digits_of(*self);
        layout_line(digits.len(), avail_size)
    }

    fn render(&self, ctx: &mut RenderCtx) -> (r: RenderResult) {
        let digits = digits_of(*self);
        render_chars(&digits, ctx)
    }

    fn has_capability(&self, capability: &Capability) -> (r: bool) {
        false
    }
}

impl Widget for u32 {
    /// One line as long as the number has digits.
    open spec fn layout_spec(&self, available: Size) -> LayoutResult {
        line_layout(decimal(*self as nat).len() as int, available)
    }

    open spec fn event_spec(&self, event: AnyEvent, size: Size) -> EventResult {
        EventResult::Unhandled
    }

    open spec fn capability_spec(&self, capability: &Capability) -> bool {
        false
    }

    /// Writes the number in decimal at the cursor, with an ellipsis in place
    /// of the digits that do not fit into the width of the frame.
    open spec fn render_spec(
        &self,
        before: RenderCtx,
        after: RenderCtx,
        r: RenderResult,
    ) -> bool {
        &&& r is Ok
        &&& after.inner().wrote(
            &before.inner(),
            ellipsized(decimal(*self as nat), before.frame().size.width as int),
        )
    }

    proof fn lemma_layout_within(&self, available: Size) {
    }

    fn event(&mut self, event: &AnyEvent, size: &Size) -> (r: EventResult)
        ensures
            *final(self) == *old(self),
    {
        EventResult::Unhandled
    }

    fn layout(&self, avail_size: &Size) -> (r: LayoutResult) {
        let digits = digits_of(*self as usize);
        layout_line(digits.len(), avail_size)
    }

    fn render(&self, ctx: &mut RenderCtx) -> (r: RenderResult) {
        let digits = digits_of(*self as usize);
        render_chars(&digits, ctx)
    }

    fn has_capability(&self, capability: &Capability) -> (r: bool) {
        false
    }
}

} // verus!
