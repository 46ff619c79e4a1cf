//! Placement of a child inside a frame larger than the child.

use vstd::prelude::*;
use crate::geometry::{Rect, SideOffsets, Size};
use crate::layout::{LayoutResult, RenderError, RenderResult};
use crate::render::RenderCtx;
use crate::widgets::{AnyEvent, Capability, EventResult, Widget};

verus! {

/// Which way an odd leftover cell goes when centring horizontally.
#[derive(Debug, Clone, Copy, PartialEq, Eq, Structural)]
pub enum HorizontalSide {
    Left,
    Right,
}

/// Which way an odd leftover cell goes when centring vertically.
#[derive(Debug, Clone, Copy, PartialEq, Eq, Structural)]
pub enum VerticalSide {
    Top,
    Bottom,
}

#[derive(Debug, Clone, Copy, PartialEq, Eq, Structural)]
pub enum HorizontalAlignment {
    Left,
    /// Centred; where the leftover is odd the child sits one cell nearer to
    /// `round_to`.
    Center { round_to: HorizontalSide },
    Right,
}

#[derive(Debug, Clone, Copy, PartialEq, Eq, Structural)]
pub enum VerticalAlignment {
    Top,
    /// Centred; where the leftover is odd the child sits one cell nearer to
    /// `round_to`.
    Middle { round_to: VerticalSide },
    Bottom,
}

/// Renders its child at the child's largest size, placed inside the frame
/// as the two alignments say.
pub struct Align<Child> {
    pub vertical: VerticalAlignment,
    pub horizontal: HorizontalAlignment,
    pub child: Child,
}

/// The free space on the four sides of a child that leaves `remainder` of
/// its frame unused.
pub open spec fn align_offsets(
    horizontal: HorizontalAlignment,
    vertical: VerticalAlignment,
    remainder: Size,
) -> SideOffsets {
    let (left, right) = match horizontal {
        HorizontalAlignment::Left => (0usize, remainder.width),
        HorizontalAlignment::Right => (remainder.width, 0usize),
        HorizontalAlignment::Center { round_to: HorizontalSide::Left } => (
            (remainder.width / 2) as usize,
            (remainder.width - remainder.width / 2) as usize,
        ),
        HorizontalAlignment::Center { round_to: HorizontalSide::Right } => (
            (remainder.width - remainder.width / 2) as usize,
            (remainder.width / 2) as usize,
        ),
    };
    let (top, bottom) = match vertical {
        VerticalAlignment::Top => (0usize, remainder.height),
        VerticalAlignment::Bottom => (remainder.height, 0usize),
        VerticalAlignment::Middle { round_to: VerticalSide::Top } => (
            (remainder.height / 2) as usize,
            (remainder.height - remainder.height / 2) as usize,
        ),
        VerticalAlignment::Middle { round_to: VerticalSide::Bottom } => (
            (remainder.height - remainder.height / 2) as usize,
            (remainder.height / 2) as usize,
        ),
    };
    SideOffsets { top, right, bottom, left }
}

/// The frame of a child whose largest size is `max`, aligned inside `frame`.
pub open spec fn aligned_frame(
    horizontal: HorizontalAlignment,
    vertical: VerticalAlignment,
    frame: Rect,
    max: Size,
) -> Rect {
    frame.shrunk(align_offsets(horizontal, vertical, frame.size.minus(max.meet(frame.size))))
}

/// See [`align_offsets`].
pub fn offsets_for(
    horizontal: &HorizontalAlignment,
    vertical: &VerticalAlignment,
    remainder: Size,
) -> (r: SideOffsets)
    ensures
        r == align_offsets(*horizontal, *vertical, remainder),
{
    let half_width: usize = remainder.width / 2;
    let half_height: usize = remainder.height / 2;
    let (left, right) = match horizontal {
        HorizontalAlignment::Left => (0, remainder.width),
        HorizontalAlignment::Right => (remainder.width, 0),
        HorizontalAlignment::Center { round_to: HorizontalSide::Left } => (
            half_width,
            remainder.width - half_width,
        ),
        HorizontalAlignment::Center { round_to: HorizontalSide::Right } => (
            remainder.width - half_width,
            half_width,
        ),
    };
    let (top, bottom) = match vertical {
        VerticalAlignment::Top => (0, remainder.height),
        VerticalAlignment::Bottom => (remainder.height, 0),
        VerticalAlignment::Middle { round_to: VerticalSide::Top } => (
            half_height,
            remainder.height - half_height,
        ),
        VerticalAlignment::Middle { round_to: VerticalSide::Bottom } => (
            remainder.height - half_height,
            half_height,
        ),
    };
    SideOffsets::new(top, right, bottom, left)
}

impl<Child: Widget> Align<Child> {
    pub fn top_left(child: Child) -> (r: Self)
        ensures
            r.vertical == VerticalAlignment::Top,
            r.horizontal == HorizontalAlignment::Left,
            r.child == child,
    {
        Align { vertical: VerticalAlignment::Top, horizontal: HorizontalAlignment::Left, child }
    }

    pub fn top_center(child: Child) -> (r: Self)
        ensures
            r.vertical == VerticalAlignment::Top,
            r.horizontal == (HorizontalAlignment::Center { round_to: HorizontalSide::Left }),
            r.child == child,
    {
        Align {
            vertical: VerticalAlignment::Top,
            horizontal: HorizontalAlignment::Center { round_to: HorizontalSide::Left },
            child,
        }
    }

    pub fn top_right(child: Child) -> (r: Self)
        ensures
            r.vertical == VerticalAlignment::Top,
            r.horizontal == HorizontalAlignment::Right,
            r.child == child,
    {
        Align { vertical: VerticalAlignment::Top, horizontal: HorizontalAlignment::Right, child }
    }

    pub fn middle_left(child: Child) -> (r: Self)
        ensures
            r.vertical == (VerticalAlignment::Middle { round_to: VerticalSide::Top }),
            r.horizontal == HorizontalAlignment::Left,
            r.child == child,
    {
        Align {
            vertical: VerticalAlignment::Middle { round_to: VerticalSide::Top },
            horizontal: HorizontalAlignment::Left,
            child,
        }
    }

    pub fn center(child: Child) -> (r: Self)
        ensures
            r.vertical == (VerticalAlignment::Middle { round_to: VerticalSide::Top }),
            r.horizontal == (HorizontalAlignment::Center { round_to: HorizontalSide::Left }),
            r.child == child,
    {
        Align {
            vertical: VerticalAlignment::Middle { round_to: VerticalSide::Top },
            horizontal: HorizontalAlignment::Center { round_to: HorizontalSide::Left },
            child,
        }
    }

    pub fn middle_right(child: Child) -> (r: Self)
        ensures
            r.vertical == (VerticalAlignment::Middle { round_to: VerticalSide::Top }),
            r.horizontal == HorizontalAlignment::Right,
            r.child == child,
    {
        Align {
            vertical: VerticalAlignment::Middle { round_to: VerticalSide::Top },
            horizontal: HorizontalAlignment::Right,
            child,
        }
    }

    pub fn bottom_left(child: Child) -> (r: Self)
        ensures
            r.vertical == VerticalAlignment::Bottom,
            r.horizontal == HorizontalAlignment::Left,
            r.child == child,
    {
        Align { vertical: VerticalAlignment::Bottom, horizontal: HorizontalAlignment::Left, child }
    }

    pub fn bottom_center(child: Child) -> (r: Self)
        ensures
            r.vertical == VerticalAlignment::Bottom,
            r.horizontal == (HorizontalAlignment::Center { round_to: HorizontalSide::Left }),
            r.child == child,
    {
        Align {
            vertical: VerticalAlignment::Bottom,
            horizontal: HorizontalAlignment::Center { round_to: HorizontalSide::Left },
            child,
        }
    }

    pub fn bottom_right(child: Child) -> (r: Self)
        ensures
            r.vertical == VerticalAlignment::Bottom,
            r.horizontal == HorizontalAlignment::Right,
            r.child == child,
    {
        Align { vertical: VerticalAlignment::Bottom, horizontal: HorizontalAlignment::Right, child }
    }

    pub fn vertical(self, vertical: VerticalAlignment) -> (r: Self)
        ensures
            r.vertical == vertical,
            r.horizontal == self.horizontal,
            r.child == self.child,
    {
        Align { vertical, horizontal: self.horizontal, child: self.child }
    }

    pub fn horizontal(self, horizontal: HorizontalAlignment) -> (r: Self)
        ensures
            r.vertical == self.vertical,
            r.horizontal == horizontal,
            r.child == self.child,
    {
        Align { vertical: self.vertical, horizontal, child: self.child }
    }

    /// The frame the child is rendered into when this widget is given `frame`
    /// and the child's largest size is `max`.
    pub fn child_frame(&self, frame: &Rect, max: Size) -> (r: Rect)
        ensures
            r == aligned_frame(self.horizontal, self.vertical, *frame, max),
    {
        let used = max.min(frame.size);
        let remainder = frame.size.saturating_sub(used);
        frame.inset(offsets_for(&self.horizontal, &self.vertical, remainder))
    }
}

impl<Child: Widget> Widget for Align<Child> {
    /// Alignment takes no room: the range is the child's.
    open spec fn layout_spec(&self, available: Size) -> LayoutResult {
        self.child.layout_spec(available)
    }

    open spec fn event_spec(&self, event: AnyEvent, size: Size) -> EventResult {
        self.child.event_spec(event, size)
    }

    open spec fn capability_spec(&self, capability: &Capability) -> bool {
        self.child.capability_spec(capability)
    }

    /// Renders the child into the aligned part of the frame that has the
    /// child's largest size. Where the child has not enough space in the
    /// frame, nothing is painted and its error is returned. Else the render
    /// fails only if that of the child does: a child whose largest size is
    /// empty is not rendered, and the render succeeds.
    open spec fn render_spec(
        &self,
        before: RenderCtx,
        after: RenderCtx,
        r: RenderResult,
    ) -> bool {
        &&& (self.child.layout_spec(before.frame().size) matches Err(e) ==> r == Err::<
            (),
            RenderError,
        >(RenderError::Layout(e)) && after.canvas() == before.canvas())
        &&& (self.child.layout_spec(before.frame().size) matches Ok(layout) ==> after
            .canvas().same_outside(
            &before.canvas(),
            aligned_frame(self.horizontal, self.vertical, before.frame(), layout.max),
        ))
        &&& after.placed() == match self.child.layout_spec(before.frame().size) {
            Ok(layout) => before.placed().push(
                aligned_frame(self.horizontal, self.vertical, before.frame(), layout.max),
            ),
            Err(_) => before.placed(),
        }
        &&& (self.child.layout_spec(before.frame().size) matches Ok(layout) ==> after.rendered(
            &before,
            aligned_frame(self.horizontal, self.vertical, before.frame(), layout.max),
            &self.child,
            r,
        ))
    }

    proof fn lemma_layout_within(&self, available: Size) {
        self.child.lemma_layout_within(available);
    }

    fn event(&mut self, event: &AnyEvent, size: &Size) -> (r: EventResult)
        ensures
            final(self).vertical == old(self).vertical,
            final(self).horizontal == old(self).horizontal,
    {
        self.child.event(event, size)
    }

    fn layout(&self, avail_size: &Size) -> (r: LayoutResult) {
        self.child.layout(avail_size)
    }

    fn render(&self, ctx: &mut RenderCtx) -> (r: RenderResult) {
        let frame = ctx.get_frame();
        match self.child.layout(&frame.size) {
            Err(e) => Err(RenderError::Layout(e)),
            Ok(layout) => {
                let child_frame = self.child_frame(&frame, layout.max);
                ctx.render_child(child_frame, &self.child)
            },
        }
    }

    fn has_capability(&self, capability: &Capability) -> (r: bool) {
        self.child.has_capability(capability)
    }
}

} // verus!
