//! A child painted on a styled background.

use vstd::prelude::*;
use crate::canvas::Cell;
use crate::geometry::Size;
use crate::layout::{LayoutResult, RenderResult};
use crate::render::RenderCtx;
use crate::style::Style;
use crate::widgets::{AnyEvent, Capability, EventResult, Widget};

verus! {

/// Applies a style to the whole frame and renders the child on top of it.
pub struct Styled<Child> {
    pub style: Style,
    pub child: Child,
}

impl Style {
    /// The widget that shows `child` in this style.
    pub fn child<Child: Widget>(self, child: Child) -> (r: Styled<Child>)
        ensures
            r.style == self,
            r.child == child,
    {
        Styled { style: self, child }
    }
}

/// A cell in the style: the attributes of the style are added to those of
/// the cell, and each colour that the style sets replaces that of the cell.
/// The character stays.
pub open spec fn styled_cell(style: Style, cell: Cell) -> Cell {
    Cell {
        glyph: cell.glyph,
        fg: if style.fg is Some {
            style.fg
        } else {
            cell.fg
        },
        bg: if style.bg is Some {
            style.bg
        } else {
            cell.bg
        },
        attrs: if style.attrs.bits == 0 {
            cell.attrs
        } else {
            cell.attrs.merged(style.attrs)
        },
    }
}

impl RenderCtx {
    /// The context is `before` with every cell of its frame put in `style`:
    /// nothing else differs.
    pub open spec fn styled_from(&self, before: &RenderCtx, style: Style) -> bool {
        &&& self.wf()
        &&& self.inner().frame() == before.inner().frame()
        &&& self.inner().cursor() == before.inner().cursor()
        &&& self.inner().alternate() == before.inner().alternate()
        &&& self.depth() == before.depth()
        &&& self.placed() == before.placed()
        &&& self.canvas().same_outside(&before.canvas(), before.frame())
        &&& forall|x: int, y: int|
            before.frame().covers(x, y) ==> #[trigger] self.canvas().draw_at(x, y) == styled_cell(
                style,
                before.canvas().draw_at(x, y),
            )
    }
}

/// Puts every cell of the frame of `ctx` in `style`: adds the attributes of
/// the style and fills the frame with the colours that the style sets.
pub fn apply_style(style: &Style, ctx: &mut RenderCtx)
    requires
        old(ctx).wf(),
    ensures
        final(ctx).styled_from(old(ctx), *style),
{
    if !style.attrs.is_empty() {
        ctx.renderer().add_attributes(style.attrs);
    }
    match &style.bg {
        Some(bg) => {
            ctx.renderer().set_background(bg);
        },
        None => {},
    }
    match &style.fg {
        Some(fg) => {
            ctx.renderer().set_foreground(fg);
        },
        None => {},
    }
}

impl<Child: Widget> Widget for Styled<Child> {
    /// A style takes no room: the range is the child's.
    open spec fn layout_spec(&self, available: Size) -> LayoutResult {
        self.child.layout_spec(available)
    }

    open spec fn event_spec(&self, event: AnyEvent, size: Size) -> EventResult {
        self.child.event_spec(event, size)
    }

    open spec fn capability_spec(&self, capability: &Capability) -> bool {
        self.child.capability_spec(capability)
    }

    /// Gives the frame the style, as [`apply_style`] does, and renders the
    /// child into the whole frame on top of that; what the child reports is
    /// returned.
    open spec fn render_spec(
        &self,
        before: RenderCtx,
        after: RenderCtx,
        r: RenderResult,
    ) -> bool {
        &&& after.placed() == before.placed().push(before.frame())
        &&& exists|styled: RenderCtx|
            {
                &&& #[trigger] styled.styled_from(&before, self.style)
                &&& after.rendered(&styled, before.frame(), &self.child, r)
            }
    }

    proof fn lemma_layout_within(&self, available: Size) {
        self.child.lemma_layout_within(available);
    }

    fn event(&mut self, event: &AnyEvent, size: &Size) -> (r: EventResult)
        ensures
            final(self).style == old(self).style,
    {
        self.child.event(event, size)
    }

    fn layout(&self, avail_size: &Size) -> (r: LayoutResult) {
        self.child.layout(avail_size)
    }

    fn render(&self, ctx: &mut RenderCtx) -> (r: RenderResult) {
        apply_style(&self.style, ctx);
        let frame = ctx.get_frame();
        let ghost styled = *ctx;
        let result = ctx.render_child(frame, &self.child);
        assert(styled.styled_from(old(ctx), self.style) && ctx.rendered(
            &styled,
            frame,
            &self.child,
            result,
        ));
        result
    }

    fn has_capability(&self, capability: &Capability) -> (r: bool) {
        self.child.has_capability(capability)
    }
}

} // verus!
