//! The root of a user interface: a widget, the screen it is rendered to, and
//! what the interface makes of the events that reach it.

use vstd::prelude::*;
use crate::canvas::{blank_cells, render_ops, Instruction};
use crate::geometry::{Point, Rect, Size};
use crate::layout::RenderResult;
use crate::render::RenderCtx;
use crate::widgets::{AnyEvent, Event, KeyCode, Widget};

verus! {

/// What the event loop does after an event.
#[derive(Debug, Clone, Copy, PartialEq, Eq, Structural)]
pub enum LoopAction {
    /// Wait for the next event.
    Wait,
    /// Render the interface again, then wait for the next event.
    Redraw,
    /// Leave the loop.
    Quit,
}

/// A user interface: a root widget and the screen that it is rendered to.
pub struct WiTui<Root> {
    alternate: bool,
    render_ctx: RenderCtx,
    root: Root,
}

/// The first and the last of a batch of resize events. No further events
/// are waited for, so both are the event given; an event that is no resize
/// yields zeros.
pub fn flush_resize_events(event: &Event) -> (r: ((u16, u16), (u16, u16)))
    ensures
        r == match *event {
            Event::Resize(x, y) => ((x, y), (x, y)),
            _ => ((0u16, 0u16), (0u16, 0u16)),
        },
{
    match event {
        Event::Resize(x, y) => ((*x, *y), (*x, *y)),
        _ => ((0, 0), (0, 0)),
    }
}

/// The event is the key `q` without modifier keys.
pub open spec fn is_quit_key(event: Event) -> bool {
    event matches Event::Key(key) && key.modifiers.none() && key.code == KeyCode::Char('q')
}

/// The event is the press of a mouse button.
pub open spec fn is_press(event: Event) -> bool {
    event matches Event::Mouse(mouse) && mouse.kind is Down
}

impl<Root: Widget> WiTui<Root> {
    /// The root widget.
    pub closed spec fn root(&self) -> Root {
        self.root
    }

    /// The context that the root widget is rendered with.
    pub closed spec fn ctx(&self) -> RenderCtx {
        self.render_ctx
    }

    /// Whether the interface owns the whole screen and runs an event loop.
    pub closed spec fn is_alternate(&self) -> bool {
        self.alternate
    }

    pub open spec fn wf(&self) -> bool {
        self.ctx().wf()
    }

    /// An interface that shows `root` on a screen of the given size, or
    /// `None` where the size has no cells or more than a buffer can hold.
    pub fn root_widget(root: Root, size: Size) -> (r: Option<Self>)
        ensures
            r is Some <==> 0 < size.area() <= usize::MAX,
            r matches Some(tui) ==> {
                &&& tui.wf()
                &&& tui.root() == root
                &&& !tui.is_alternate()
                &&& tui.ctx().frame() == (Rect { origin: Point { x: 0, y: 0 }, size })
                &&& tui.ctx().canvas().size() == size
                &&& tui.ctx().canvas().draw() == blank_cells(size.area() as nat)
                &&& tui.ctx().canvas().active() == blank_cells(size.area() as nat)
            },
    {
        match RenderCtx::new(size, false) {
            Some(render_ctx) => Some(WiTui { alternate: false, render_ctx, root }),
            None => None,
        }
    }

    /// The same interface on a fresh screen of the same size, owning the
    /// whole screen or not as `alternate` says.
    pub fn alternate(self, alternate: bool) -> (r: Self)
        requires
            self.wf(),
        ensures
            r.wf(),
            r.root() == self.root(),
            r.is_alternate() == alternate,
            r.ctx().canvas().size() == self.ctx().canvas().size(),
            r.ctx().frame() == (Rect {
                origin: Point { x: 0, y: 0 },
                size: self.ctx().canvas().size(),
            }),
            r.ctx().canvas().draw() == blank_cells(self.ctx().canvas().draw().len()),
            r.ctx().canvas().active() == blank_cells(self.ctx().canvas().draw().len()),
    {
        let size = self.render_ctx.canvas_size();
        proof {
            self.render_ctx.canvas().lemma_area();
        }
        match RenderCtx::new(size, alternate) {
            Some(render_ctx) => WiTui { alternate, render_ctx, root: self.root },
            None => WiTui { alternate, render_ctx: self.render_ctx, root: self.root },
        }
    }

    pub fn get_alternate(&self) -> (r: bool)
        ensures
            r == self.is_alternate(),
    {
        self.alternate
    }

    /// Read access to the root widget.
    pub fn get_root(&self) -> (r: &Root)
        ensures
            *r == self.root(),
    {
        &self.root
    }

    /// Read access to the render context.
    pub fn get_ctx(&self) -> (r: &RenderCtx)
        ensures
            *r == self.ctx(),
    {
        &self.render_ctx
    }

    /// Renders the root widget into the whole screen, from its top-left cell
    /// on, and brings the terminal up to date: returns what the root widget
    /// reported and the instructions for the terminal. The instructions are
    /// those that turn what the terminal showed into what the root widget
    /// painted.
    pub fn print(&mut self) -> (r: (RenderResult, Vec<Instruction>))
        requires
            old(self).wf(),
        ensures
            final(self).wf(),
            final(self).root() == old(self).root(),
            final(self).is_alternate() == old(self).is_alternate(),
            final(self).ctx().frame() == old(self).ctx().frame(),
            final(self).ctx().canvas().size() == old(self).ctx().canvas().size(),
            r.1@ == render_ops(
                final(self).ctx().canvas().active(),
                old(self).ctx().canvas().active(),
                old(self).ctx().canvas().forced(),
                old(self).ctx().canvas().size().width as int,
                old(self).ctx().canvas().draw().len() as int,
            ),
            final(self).ctx().canvas().draw() == blank_cells(old(self).ctx().canvas().draw().len()),
            !final(self).ctx().canvas().forced(),
            exists|painted: RenderCtx|
                {
                    &&& #[trigger] painted.rendered(
                        &old(self).ctx(),
                        old(self).ctx().frame(),
                        &old(self).root(),
                        r.0,
                    )
                    &&& final(self).ctx().canvas().active() == painted.canvas().draw()
                },
    {
        let frame = self.render_ctx.get_frame();
        let result = self.render_ctx.render_child(frame, &self.root);
        let ghost painted = self.render_ctx;
        let ops = self.render_ctx.flush();
        let r = (result, ops);
        assert(painted.rendered(&old(self).ctx(), old(self).ctx().frame(), &old(self).root(), r.0)
            && self.ctx().canvas().active() == painted.canvas().draw());
        r
    }

    /// Ends the interface.
    pub fn quit(self) {
    }

    /// Decides what an event does to the interface. The key `q` without
    /// modifier keys quits. The press of a mouse button is handed to the root
    /// widget and is followed by a redraw. A resize, while the interface owns
    /// the screen, gives the screen its new size and is followed by a redraw
    /// that paints every cell; a new size without cells leaves the screen as it
    /// is. Everything else is waited out.
    pub fn handle_event(&mut self, event: &Event) -> (r: LoopAction)
        requires
            old(self).wf(),
        ensures
            final(self).wf(),
            final(self).is_alternate() == old(self).is_alternate(),
            r == if is_quit_key(*event) {
                LoopAction::Quit
            } else if is_press(*event) || (*event is Resize && old(self).is_alternate()) {
                LoopAction::Redraw
            } else {
                LoopAction::Wait
            },
            is_press(*event) ==> final(self).ctx() == old(self).ctx(),
            !is_press(*event) ==> final(self).root() == old(self).root(),
            *event matches Event::Resize(cols, rows) ==> old(self).is_alternate() ==> if 0 < cols
                * rows {
                &&& final(self).ctx().frame() == (Rect {
                    origin: Point { x: 0, y: 0 },
                    size: Size { width: cols as usize, height: rows as usize },
                })
                &&& final(self).ctx().canvas().size() == (Size {
                    width: cols as usize,
                    height: rows as usize,
                })
                &&& final(self).ctx().canvas().forced()
            } else {
                final(self).ctx() == old(self).ctx()
            },
            !is_press(*event) && !(*event is Resize && old(self).is_alternate())
                ==> final(self).ctx() == old(self).ctx(),
    {
        match event {
            Event::Key(key) => {
                if key.modifiers.is_empty() {
                    match key.code {
                        KeyCode::Char(c) => {
                            if c == 'q' {
                                return LoopAction::Quit;
                            }
                        },
                        _ => {},
                    }
                }
                LoopAction::Wait
            },
            Event::Mouse(mouse) => {
                match mouse.kind {
                    crate::widgets::MouseEventKind::Down(_) => {
                        let size = self.render_ctx.get_frame().size;
                        let _ = self.root.event(&AnyEvent::Input(*event), &size);
                        LoopAction::Redraw
                    },
                    _ => LoopAction::Wait,
                }
            },
            Event::Resize(cols, rows) => {
                if self.alternate {
                    let width: usize = *cols as usize;
                    let height: usize = *rows as usize;
                    assert(width * height <= 0xffff * 0xffff) by (nonlinear_arith)
                        requires
                            0 <= width <= 0xffff,
                            0 <= height <= 0xffff,
                    ;
                    let _ = self.render_ctx.resize(width, height);
                    LoopAction::Redraw
                } else {
                    LoopAction::Wait
                }
            },
        }
    }
}

} // verus!
