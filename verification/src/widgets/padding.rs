//! Empty space around a child.

use vstd::prelude::*;
use crate::geometry::{SideOffsets, Size};
use crate::layout::{LayoutError, LayoutResult, LayoutSize, RenderError, RenderResult};
use crate::render::RenderCtx;
use crate::widgets::{AnyEvent, Capability, EventResult, Widget};

verus! {

/// Keeps `offsets` cells free on the four sides of the child.
pub struct Padding<Child> {
    pub offsets: SideOffsets,
    pub child: Child,
}

/// The range of a child that is surrounded by `offsets`, given the range
/// that the child reports for what is left of `available` inside them.
pub open spec fn inset_layout(offsets: SideOffsets, available: Size, inner: LayoutResult) -> LayoutResult {
    if !available.fits(offsets.extent()) || offsets.horizontal() > usize::MAX || offsets.vertical()
        > usize::MAX {
        Err(LayoutError::InsufficientSpace)
    } else {
        match inner {
            Ok(layout) => Ok(
                LayoutSize {
                    min: layout.min.plus(offsets.extent()),
                    max: layout.max.plus(offsets.extent()),
                    flex: layout.flex,
                    fit: layout.fit,
                },
            ),
            Err(e) => Err(e),
        }
    }
}

/// What is left of `available` inside `offsets`.
pub open spec fn inset_available(offsets: SideOffsets, available: Size) -> Size {
    available.minus(offsets.extent())
}

/// Reports the range of `child` surrounded by `offsets`.
pub fn layout_inset<Child: Widget>(offsets: &SideOffsets, child: &Child, avail_size: &Size) -> (r:
    LayoutResult)
    ensures
        r == inset_layout(
            *offsets,
            *avail_size,
            child.layout_spec(inset_available(*offsets, *avail_size)),
        ),
        r matches Ok(layout) ==> layout.within(*avail_size),
{
    let inset = offsets.size();
    if offsets.left > usize::MAX - offsets.right || offsets.top > usize::MAX - offsets.bottom
        || !avail_size.contains(inset) {
        return Err(LayoutError::InsufficientSpace);
    }
    let inner = avail_size.saturating_sub(inset);
    proof {
        child.lemma_layout_within(inner);
    }
    match child.layout(&inner) {
        Ok(layout) => Ok(
            LayoutSize {
                min: layout.min.saturating_add(inset),
                max: layout.max.saturating_add(inset),
                flex: layout.flex,
                fit: layout.fit,
            },
        ),
        Err(e) => Err(e),
    }
}

impl Padding<()> {
    /// Padding of `all` cells on every side, around nothing yet.
    pub fn all(all: usize) -> (r: Self)
        ensures
            r.offsets == (SideOffsets { top: all, right: all, bottom: all, left: all }),
    {
        Padding { offsets: SideOffsets::new_all_same(all), child: () }
    }

    /// The same padding around `child`.
    pub fn child<Child: Widget>(self, child: Child) -> (r: Padding<Child>)
        ensures
            r.offsets == self.offsets,
            r.child == child,
    {
        Padding { child, offsets: self.offsets }
    }
}

impl Default for Padding<()> {
    /// No padding, around nothing yet.
    fn default() -> (r: Self)
        ensures
            r.offsets == (SideOffsets { top: 0, right: 0, bottom: 0, left: 0 }),
    {
        Padding { offsets: SideOffsets::zero(), child: () }
    }
}

impl<Child> Padding<Child> {
    pub fn top(self, top: usize) -> (r: Self)
        ensures
            r.offsets == (SideOffsets { top, ..self.offsets }),
            r.child == self.child,
    {
        let offsets = self.offsets;
        Padding {
            offsets: SideOffsets::new(top, offsets.right, offsets.bottom, offsets.left),
            child: self.child,
        }
    }

    pub fn left(self, left: usize) -> (r: Self)
        ensures
            r.offsets == (SideOffsets { left, ..self.offsets }),
            r.child == self.child,
    {
        let offsets = self.offsets;
        Padding {
            offsets: SideOffsets::new(offsets.top, offsets.right, offsets.bottom, left),
            child: self.child,
        }
    }

    pub fn right(self, right: usize) -> (r: Self)
        ensures
            r.offsets == (SideOffsets { right, ..self.offsets }),
            r.child == self.child,
    {
        let offsets = self.offsets;
        Padding {
            offsets: SideOffsets::new(offsets.top, right, offsets.bottom, offsets.left),
            child: self.child,
        }
    }

    pub fn bottom(self, bottom: usize) -> (r: Self)
        ensures
            r.offsets == (SideOffsets { bottom, ..self.offsets }),
            r.child == self.child,
    {
        let offsets = self.offsets;
        Padding {
            offsets: SideOffsets::new(offsets.top, offsets.right, bottom, offsets.left),
            child: self.child,
        }
    }
}

impl<Child: Widget> Widget for Padding<Child> {
    /// The child's range for what is left inside the padding, enlarged by
    /// the padding on both axes. Where the padding alone does not fit, there
    /// is not enough space.
    open spec fn layout_spec(&self, available: Size) -> LayoutResult {
        inset_layout(
            self.offsets,
            available,
            self.child.layout_spec(inset_available(self.offsets, available)),
        )
    }

    open spec fn event_spec(&self, event: AnyEvent, size: Size) -> EventResult {
        self.child.event_spec(event, size)
    }

    open spec fn capability_spec(&self, capability: &Capability) -> bool {
        self.child.capability_spec(capability)
    }

    /// Renders the child into the frame shrunk by the padding. A frame
    /// smaller than the padding is not enough space, and nothing is painted.
    /// Else the render fails only if that of the child does: where the
    /// padding leaves the child no cell, it succeeds.
    open spec fn render_spec(
        &self,
        before: RenderCtx,
        after: RenderCtx,
        r: RenderResult,
    ) -> bool {
        &&& !before.frame().size.fits(self.offsets.extent()) ==> r == Err::<(), RenderError>(
            RenderError::Layout(LayoutError::InsufficientSpace),
        ) && after.canvas() == before.canvas()
        &&& after.canvas().same_outside(
            &before.canvas(),
            before.frame().shrunk(self.offsets),
        )
        &&& after.placed() == if before.frame().size.fits(self.offsets.extent()) {
            before.placed().push(before.frame().shrunk(self.offsets))
        } else {
            before.placed()
        }
        &&& before.frame().size.fits(self.offsets.extent()) ==> after.rendered(
            &before,
            before.frame().shrunk(self.offsets),
            &self.child,
            r,
        )
    }

    proof fn lemma_layout_within(&self, available: Size) {
        self.child.lemma_layout_within(inset_available(self.offsets, available));
    }

    fn event(&mut self, event: &AnyEvent, size: &Size) -> (r: EventResult)
        ensures
            final(self).offsets == old(self).offsets,
    {
        self.child.event(event, size)
    }

    fn layout(&self, avail_size: &Size) -> (r: LayoutResult) {
        layout_inset(&self.offsets, &self.child, avail_size)
    }

    fn render(&self, ctx: &mut RenderCtx) -> (r: RenderResult) {
        let frame = ctx.get_frame();
        if !frame.size.contains(self.offsets.size()) {
            return Err(RenderError::Layout(LayoutError::InsufficientSpace));
        }
        let child_frame = frame.inset(self.offsets);
        ctx.render_child(child_frame, &self.child)
    }

    fn has_capability(&self, capability: &Capability) -> (r: bool) {
        self.child.has_capability(capability)
    }
}

/// With padding of `top`, `left`, `right` and `bottom` cells, the minimum
/// reported for an available size is the minimum that the child reports
/// for the available size less the padding, plus the padding, on both axes.
/// This holds whenever the padding fits into the available size and the
/// child has enough space in what is left.
pub proof fn lemma_padding_round_trip<Child: Widget>(padding: Padding<Child>, available: Size)
    requires
        padding.offsets.left + padding.offsets.right <= available.width,
        padding.offsets.top + padding.offsets.bottom <= available.height,
        padding.child.layout_spec(
            Size {
                width: (available.width - (padding.offsets.left + padding.offsets.right)) as usize,
                height: (available.height - (padding.offsets.top + padding.offsets.bottom)) as usize,
            },
        ) is Ok,
    ensures
        padding.layout_spec(available) is Ok,
        padding.layout_spec(available).unwrap().min.width == padding.child.layout_spec(
            Size {
                width: (available.width - (padding.offsets.left + padding.offsets.right)) as usize,
                height: (available.height - (padding.offsets.top + padding.offsets.bottom)) as usize,
            },
        ).unwrap().min.width + (padding.offsets.left + padding.offsets.right),
        padding.layout_spec(available).unwrap().min.height == padding.child.layout_spec(
            Size {
                width: (available.width - (padding.offsets.left + padding.offsets.right)) as usize,
                height: (available.height - (padding.offsets.top + padding.offsets.bottom)) as usize,
            },
        ).unwrap().min.height + (padding.offsets.top + padding.offsets.bottom),
{
    padding.child.lemma_layout_within(inset_available(padding.offsets, available));
}

} // verus!
