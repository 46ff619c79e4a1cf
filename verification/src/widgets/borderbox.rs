//! A child framed by borders that run along the edges of the frame.

use vstd::prelude::*;
use crate::geometry::{Rect, SideOffsets, Size};
use crate::layout::{LayoutError, LayoutResult, RenderError, RenderResult};
use crate::render::RenderCtx;
use crate::style::Style;
use crate::widgets::borders::{
    border_frames, borders_in_order, edge, framed_in_turn, framed_plan, render_framed,
};
use crate::widgets::padding::{inset_available, inset_layout, layout_inset};
use crate::widgets::repeat::Repeat;
use crate::widgets::styled::Styled;
use crate::widgets::{AnyEvent, Capability, EventResult, Widget};

verus! {

/// Draws a border widget on each side that has one, and in each corner that
/// has one and whose two sides are present, around the child. The borders
/// run along the edges of the frame, whatever the size of the child.
pub struct BorderBox<Border, Child> {
    pub top: Option<Border>,
    pub left: Option<Border>,
    pub right: Option<Border>,
    pub bottom: Option<Border>,
    pub top_left: Option<Border>,
    pub top_right: Option<Border>,
    pub bottom_left: Option<Border>,
    pub bottom_right: Option<Border>,
    pub child: Child,
}

impl<Border, Child> BorderBox<Border, Child> {
    /// The frames that the parts are rendered into when the whole takes
    /// `whole`, in the order of rendering.
    pub open spec fn plan(&self, whole: Rect) -> Seq<Rect> {
        framed_plan(
            self.top is Some,
            self.left is Some,
            self.right is Some,
            self.bottom is Some,
            self.top_left is Some,
            self.top_right is Some,
            self.bottom_left is Some,
            self.bottom_right is Some,
            border_frames(whole, self.edges()),
        )
    }

    /// Thickness of the border on each side: one cell where the side has a
    /// border widget, none where it has not.
    pub open spec fn edges(&self) -> SideOffsets {
        SideOffsets {
            top: edge(self.top is Some),
            right: edge(self.right is Some),
            bottom: edge(self.bottom is Some),
            left: edge(self.left is Some),
        }
    }

    /// See [`BorderBox::edges`].
    pub fn edge_offsets(&self) -> (r: SideOffsets)
        ensures
            r == self.edges(),
    {
        SideOffsets::new(
            if self.top.is_some() { 1 } else { 0 },
            if self.right.is_some() { 1 } else { 0 },
            if self.bottom.is_some() { 1 } else { 0 },
            if self.left.is_some() { 1 } else { 0 },
        )
    }
}

impl<Border, Child> BorderBox<Border, Child> {
    /// No borders, around `child`.
    pub fn new(child: Child) -> (r: Self)
        ensures
            r.child == child,
            r.edges() == (SideOffsets { top: 0, right: 0, bottom: 0, left: 0 }),
            r.top_left is None,
            r.top_right is None,
            r.bottom_left is None,
            r.bottom_right is None,
    {
        BorderBox {
            top: None,
            left: None,
            right: None,
            bottom: None,
            top_left: None,
            top_right: None,
            bottom_left: None,
            bottom_right: None,
            child,
        }
    }

    pub fn top(self, border: Border) -> (r: Self)
        ensures
            r == (BorderBox { top: Some(border), ..self }),
    {
        BorderBox {
            top: Some(border),
            left: self.left,
            right: self.right,
            bottom: self.bottom,
            top_left: self.top_left,
            top_right: self.top_right,
            bottom_left: self.bottom_left,
            bottom_right: self.bottom_right,
            child: self.child,
        }
    }

    pub fn left(self, border: Border) -> (r: Self)
        ensures
            r == (BorderBox { left: Some(border), ..self }),
    {
        BorderBox {
            top: self.top,
            left: Some(border),
            right: self.right,
            bottom: self.bottom,
            top_left: self.top_left,
            top_right: self.top_right,
            bottom_left: self.bottom_left,
            bottom_right: self.bottom_right,
            child: self.child,
        }
    }

    pub fn right(self, border: Border) -> (r: Self)
        ensures
            r == (BorderBox { right: Some(border), ..self }),
    {
        BorderBox {
            top: self.top,
            left: self.left,
            right: Some(border),
            bottom: self.bottom,
            top_left: self.top_left,
            top_right: self.top_right,
            bottom_left: self.bottom_left,
            bottom_right: self.bottom_right,
            child: self.child,
        }
    }

    pub fn bottom(self, border: Border) -> (r: Self)
        ensures
            r == (BorderBox { bottom: Some(border), ..self }),
    {
        BorderBox {
            top: self.top,
            left: self.left,
            right: self.right,
            bottom: Some(border),
            top_left: self.top_left,
            top_right: self.top_right,
            bottom_left: self.bottom_left,
            bottom_right: self.bottom_right,
            child: self.child,
        }
    }

    pub fn top_left(self, border: Border) -> (r: Self)
        ensures
            r == (BorderBox { top_left: Some(border), ..self }),
    {
        BorderBox {
            top: self.top,
            left: self.left,
            right: self.right,
            bottom: self.bottom,
            top_left: Some(border),
            top_right: self.top_right,
            bottom_left: self.bottom_left,
            bottom_right: self.bottom_right,
            child: self.child,
        }
    }

    pub fn top_right(self, border: Border) -> (r: Self)
        ensures
            r == (BorderBox { top_right: Some(border), ..self }),
    {
        BorderBox {
            top: self.top,
            left: self.left,
            right: self.right,
            bottom: self.bottom,
            top_left: self.top_left,
            top_right: Some(border),
            bottom_left: self.bottom_left,
            bottom_right: self.bottom_right,
            child: self.child,
        }
    }

    pub fn bottom_left(self, border: Border) -> (r: Self)
        ensures
            r == (BorderBox { bottom_left: Some(border), ..self }),
    {
        BorderBox {
            top: self.top,
            left: self.left,
            right: self.right,
            bottom: self.bottom,
            top_left: self.top_left,
            top_right: self.top_right,
            bottom_left: Some(border),
            bottom_right: self.bottom_right,
            child: self.child,
        }
    }

    pub fn bottom_right(self, border: Border) -> (r: Self)
        ensures
            r == (BorderBox { bottom_right: Some(border), ..self }),
    {
        BorderBox {
            top: self.top,
            left: self.left,
            right: self.right,
            bottom: self.bottom,
            top_left: self.top_left,
            top_right: self.top_right,
            bottom_left: self.bottom_left,
            bottom_right: Some(border),
            child: self.child,
        }
    }
}

/// The part is a character, repeated over its frame, in a style.
pub open spec fn is_glyph(part: Option<Styled<Repeat<char>>>, style: Style, glyph: char) -> bool {
    part matches Some(border) && border.style == style && border.child.child == glyph
}

impl<Child: Widget> BorderBox<Styled<Repeat<char>>, Child> {
    /// All four sides and all four corners are the given characters, drawn
    /// in `style`.
    pub open spec fn drawn_with(
        &self,
        style: Style,
        horizontal: char,
        vertical: char,
        top_left: char,
        top_right: char,
        bottom_left: char,
        bottom_right: char,
    ) -> bool {
        &&& is_glyph(self.top, style, horizontal)
        &&& is_glyph(self.bottom, style, horizontal)
        &&& is_glyph(self.left, style, vertical)
        &&& is_glyph(self.right, style, vertical)
        &&& is_glyph(self.top_left, style, top_left)
        &&& is_glyph(self.top_right, style, top_right)
        &&& is_glyph(self.bottom_left, style, bottom_left)
        &&& is_glyph(self.bottom_right, style, bottom_right)
    }

    /// All eight parts around `child`, as characters drawn in `style`.
    pub fn with_glyphs(
        child: Child,
        style: Style,
        horizontal: char,
        vertical: char,
        top_left: char,
        top_right: char,
        bottom_left: char,
        bottom_right: char,
    ) -> (r: Self)
        ensures
            r.child == child,
            r.drawn_with(
                style,
                horizontal,
                vertical,
                top_left,
                top_right,
                bottom_left,
                bottom_right,
            ),
    {
        BorderBox {
            top: Some(style.child(Repeat::child(horizontal))),
            left: Some(style.child(Repeat::child(vertical))),
            right: Some(style.child(Repeat::child(vertical))),
            bottom: Some(style.child(Repeat::child(horizontal))),
            top_left: Some(style.child(Repeat::child(top_left))),
            top_right: Some(style.child(Repeat::child(top_right))),
            bottom_left: Some(style.child(Repeat::child(bottom_left))),
            bottom_right: Some(style.child(Repeat::child(bottom_right))),
            child,
        }
    }

    /// Single lines with square corners.
    pub fn preset_lined(child: Child) -> (r: Self)
        ensures
            r.child == child,
            r.drawn_with(
                Style { fg: None, bg: None, attrs: crate::style::Attributes { bits: 0 } },
                '─', '│', '┌', '┐', '└', '┘',
            ),
    {
        Self::with_glyphs(child, Style::new(), '─', '│', '┌', '┐', '└', '┘')
    }

    /// Double lines.
    pub fn preset_double(child: Child) -> (r: Self)
        ensures
            r.child == child,
            r.drawn_with(
                Style { fg: None, bg: None, attrs: crate::style::Attributes { bits: 0 } },
                '═', '║', '╔', '╗', '╚', '╝',
            ),
    {
        Self::with_glyphs(child, Style::new(), '═', '║', '╔', '╗', '╚', '╝')
    }

    /// Dashes and bars with a plus sign in each corner.
    pub fn preset_dashed(child: Child) -> (r: Self)
        ensures
            r.child == child,
            r.drawn_with(
                Style { fg: None, bg: None, attrs: crate::style::Attributes { bits: 0 } },
                '-', '|', '+', '+', '+', '+',
            ),
    {
        Self::with_glyphs(child, Style::new(), '-', '|', '+', '+', '+', '+')
    }

    /// Dashes and bars with square corners.
    pub fn preset_simple_dashed(child: Child) -> (r: Self)
        ensures
            r.child == child,
            r.drawn_with(
                Style { fg: None, bg: None, attrs: crate::style::Attributes { bits: 0 } },
                '-', '|', '┌', '┐', '└', '┘',
            ),
    {
        Self::with_glyphs(child, Style::new(), '-', '|', '┌', '┐', '└', '┘')
    }
}

impl<Border: Widget, Child: Widget> Widget for BorderBox<Border, Child> {
    /// The child's range for what is left inside the borders, enlarged by
    /// one cell for each side that has a border.
    open spec fn layout_spec(&self, available: Size) -> LayoutResult {
        inset_layout(
            self.edges(),
            available,
            self.child.layout_spec(inset_available(self.edges(), available)),
        )
    }

    open spec fn event_spec(&self, event: AnyEvent, size: Size) -> EventResult {
        self.child.event_spec(event, size)
    }

    open spec fn capability_spec(&self, capability: &Capability) -> bool {
        self.child.capability_spec(capability)
    }

    /// Renders the borders along the edges of the frame and the child in
    /// what they leave; the first part whose render fails ends the render with
    /// its error. A frame smaller than the borders is not enough space, and
    /// nothing is painted.
    open spec fn render_spec(
        &self,
        before: RenderCtx,
        after: RenderCtx,
        r: RenderResult,
    ) -> bool {
        &&& !before.frame().size.fits(self.edges().extent()) ==> {
            &&& r == Err::<(), RenderError>(RenderError::Layout(LayoutError::InsufficientSpace))
            &&& after.canvas() == before.canvas()
            &&& after.placed() == before.placed()
        }
        &&& before.frame().size.fits(self.edges().extent()) ==> {
            &&& after.placed_some_of(&before, self.plan(before.frame()))
            &&& after.painted_where_placed(&before)
            &&& r is Ok ==> after.placed_all_of(&before, self.plan(before.frame()))
            &&& r is Err ==> after.last_child_rendered(&before)
            &&& framed_in_turn(
                before,
                after,
                borders_in_order(
                    self.top,
                    self.left,
                    self.right,
                    self.bottom,
                    self.top_left,
                    self.top_right,
                    self.bottom_left,
                    self.bottom_right,
                ),
                self.plan(before.frame()),
                self.child,
                r,
            )
        }
    }

    proof fn lemma_layout_within(&self, available: Size) {
        self.child.lemma_layout_within(inset_available(self.edges(), available));
    }

    fn event(&mut self, event: &AnyEvent, size: &Size) -> (r: EventResult)
        ensures
            final(self).edges() == old(self).edges(),
    {
        self.child.event(event, size)
    }

    fn layout(&self, avail_size: &Size) -> (r: LayoutResult) {
        layout_inset(&self.edge_offsets(), &self.child, avail_size)
    }

    fn render(&self, ctx: &mut RenderCtx) -> (r: RenderResult) {
        let frame = ctx.get_frame();
        if !frame.size.contains(self.edge_offsets().size()) {
            return Err(RenderError::Layout(LayoutError::InsufficientSpace));
        }
        render_framed(
            &self.top,
            &self.left,
            &self.right,
            &self.bottom,
            &self.top_left,
            &self.top_right,
            &self.bottom_left,
            &self.bottom_right,
            &self.child,
            &frame,
            ctx,
        )
    }

    fn has_capability(&self, capability: &Capability) -> (r: bool) {
        self.child.has_capability(capability)
    }
}

} // verus!
