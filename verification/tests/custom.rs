use witui::geometry::{Point, Rect, Size};
use witui::widgets::borders::render_framed;
use witui::layout::{LayoutError, LayoutResult, LayoutSize, RenderError, RenderResult};
use witui::render::RenderCtx;
use witui::widgets::stack::after_child;
use witui::widgets::{
    Align, AnyEvent, Capability, EventResult, Expanded, Min, Padding, Repeat, RowView, Stack,
    Widget,
};

/// A widget written outside the library: a bar of a fixed number of stars.
struct Stars(usize);

impl Widget for Stars {
    // the promise that the reported range is within what was offered: `layout`
    // below cuts the range down to it
    fn lemma_layout_within(&self, _available: Size) {}

    fn event(&mut self, _event: &AnyEvent, _size: &Size) -> EventResult {
        self.0 += 1;
        EventResult::Done
    }

    fn layout(&self, avail_size: &Size) -> LayoutResult {
        let width = self.0.min(avail_size.width);
        Ok(LayoutSize::min_max(Size::new(width, 1).min(*avail_size), Size::new(width, 1).min(*avail_size)))
    }

    fn render(&self, ctx: &mut RenderCtx) -> RenderResult {
        for _ in 0..self.0 {
            ctx.renderer().write_char('*');
        }
        Ok(())
    }

    fn has_capability(&self, capability: &Capability) -> bool {
        matches!(capability, Capability::Selectable)
    }
}

#[test]
fn widgets_from_outside_take_part_in_layout() {
    let row = RowView::<Vec<Box<dyn Widget>>>::new().child(Box::new(Stars(3))).child(Box::new("ab"));
    let mut ctx = RenderCtx::new(Size::new(6, 1), false).unwrap();
    row.render(&mut ctx).unwrap();
    let text: String = (0..6)
        .map(|x| {
            ctx.get_canvas()
                .draw_cell(Point::new(x, 0))
                .unwrap()
                .glyph
                .unwrap_or('.')
        })
        .collect();
    assert_eq!(text, "***ab.");
    assert!(Stars(1).has_capability(&Capability::Selectable));
    assert!(!Stars(1).has_capability(&Capability::Custom(String::from("x"))));
}

/// A widget that cannot say what went wrong.
struct Broken;

impl Widget for Broken {
    fn lemma_layout_within(&self, _available: Size) {}

    fn event(&mut self, _event: &AnyEvent, _size: &Size) -> EventResult {
        EventResult::Unhandled
    }

    fn layout(&self, _avail_size: &Size) -> LayoutResult {
        Err(LayoutError::Unknown)
    }

    fn render(&self, _ctx: &mut RenderCtx) -> RenderResult {
        Err(RenderError::Layout(LayoutError::Unknown))
    }

    fn has_capability(&self, _capability: &Capability) -> bool {
        false
    }
}

#[test]
fn unknown_errors_are_passed_on() {
    let size = Size::new(9, 9);
    assert_eq!(Padding::all(1).child(Broken).layout(&size), Err(LayoutError::Unknown));
    assert_eq!(Expanded::child(Broken).layout(&size), Err(LayoutError::Unknown));
    assert_eq!(Min::zero().child(Broken).layout(&size), Err(LayoutError::Unknown));
    // even a row that leaves out what does not fit fails on an unknown error
    let row = RowView::new().child(Broken);
    assert_eq!(row.layout(&size), Err(LayoutError::Unknown));
    assert_eq!(Stack::new().child(Broken).must_fit_all_children(false).layout(&size), Err(LayoutError::Unknown));
    let mut ctx = RenderCtx::new(size, false).unwrap();
    assert_eq!(row.render(&mut ctx), Err(RenderError::Layout(LayoutError::Unknown)));
    assert_eq!(Align::center(Broken).render(&mut ctx), Err(RenderError::Layout(LayoutError::Unknown)));
    assert_eq!(ctx.render_child(ctx.get_frame(), &Broken), Err(RenderError::Layout(LayoutError::Unknown)));
}

#[test]
fn errors_describe_themselves() {
    assert_eq!(LayoutError::InsufficientSpace.message(), "Layout error: insufficient space");
    assert_eq!(LayoutError::Unknown.message(), "Layout error: unknown");
    let error = RenderError::Layout(LayoutError::InsufficientSpace);
    assert_eq!(error.message(), "Render error -> Layout error: insufficient space");
    assert_eq!(error.layout_error(), LayoutError::InsufficientSpace);
    assert_eq!(
        RenderError::Layout(LayoutError::Unknown).message(),
        "Render error -> Layout error: unknown"
    );
}

#[test]
fn the_first_failing_part_ends_a_framed_render() {
    let none: Option<Broken> = None;
    let broken = Some(Broken);
    let mut ctx = RenderCtx::new(Size::new(4, 3), false).unwrap();
    let whole = Rect::from_size(Size::new(4, 3));
    // a failing side is rendered before the child: nothing of the child is painted
    let result =
        render_framed(&broken, &none, &none, &none, &none, &none, &none, &none, &"ab", &whole, &mut ctx);
    assert_eq!(result, Err(RenderError::Layout(LayoutError::Unknown)));
    assert_eq!(ctx.get_canvas().draw_cell(Point::new(0, 1)).unwrap().glyph, None);
    // without failing parts the child is painted and the render succeeds
    let result =
        render_framed(&none, &none, &none, &none, &none, &none, &none, &none, &"ab", &whole, &mut ctx);
    assert_eq!(result, Ok(()));
    assert_eq!(ctx.get_canvas().draw_cell(Point::new(0, 0)).unwrap().glyph, Some('a'));
    // a corner without its two sides is not rendered, so it cannot fail
    let result =
        render_framed(&none, &none, &none, &none, &broken, &broken, &broken, &broken, &"ab", &whole, &mut ctx);
    assert_eq!(result, Ok(()));
    // parts outside the frame are skipped: even failing ones do not fail the render
    let outside = Rect::new(Point::new(9, 9), Size::new(3, 3));
    let result = render_framed(
        &broken, &broken, &broken, &broken, &broken, &broken, &broken, &broken, &Broken, &outside,
        &mut ctx,
    );
    assert_eq!(result, Ok(()));
    assert_eq!(ctx.get_frame(), whole);
}

#[test]
fn a_box_renders_its_content_and_drops_its_error() {
    let mut ctx = RenderCtx::new(Size::new(3, 1), false).unwrap();
    assert_eq!(Box::new("ab").render(&mut ctx), Ok(()));
    assert_eq!(ctx.get_canvas().draw_cell(Point::new(1, 0)).unwrap().glyph, Some('b'));
    assert_eq!(Box::new(Broken).render(&mut ctx), Ok(()));
    assert_eq!(Box::new(Broken).layout(&Size::new(3, 1)), Err(LayoutError::Unknown));
    assert_eq!(ctx.get_frame(), Rect::from_size(Size::new(3, 1)));
}

/// A widget of two cells that cannot say what is wrong with less.
struct Pair;

impl Widget for Pair {
    fn lemma_layout_within(&self, _available: Size) {}

    fn event(&mut self, _event: &AnyEvent, _size: &Size) -> EventResult {
        EventResult::Unhandled
    }

    fn layout(&self, avail_size: &Size) -> LayoutResult {
        if avail_size.width < 2 || avail_size.height < 1 {
            Err(LayoutError::Unknown)
        } else {
            Ok(LayoutSize::min_max(Size::new(2, 1), Size::new(2, 1)))
        }
    }

    fn render(&self, ctx: &mut RenderCtx) -> RenderResult {
        ctx.renderer().write_char('p');
        ctx.renderer().write_char('q');
        Ok(())
    }

    fn has_capability(&self, _capability: &Capability) -> bool {
        false
    }
}

#[test]
fn an_unknown_error_for_the_rest_of_a_row_ends_the_tiling() {
    let repeat = Repeat::child(Pair);
    let mut ctx = RenderCtx::new(Size::new(4, 1), false).unwrap();
    assert_eq!(repeat.render(&mut ctx), Ok(()));
    let row: String =
        (0..4).map(|x| ctx.get_canvas().draw_cell(Point::new(x, 0)).unwrap().glyph.unwrap_or('.')).collect();
    assert_eq!(row, "pqpq");
    let mut ctx = RenderCtx::new(Size::new(5, 1), false).unwrap();
    assert_eq!(repeat.render(&mut ctx), Err(RenderError::Layout(LayoutError::Unknown)));
    assert_eq!(ctx.get_frame(), Rect::from_size(Size::new(5, 1)));
}

/// A widget whose render finds that it has no room.
struct Cramped;

impl Widget for Cramped {
    fn lemma_layout_within(&self, _available: Size) {}

    fn event(&mut self, _event: &AnyEvent, _size: &Size) -> EventResult {
        EventResult::Unhandled
    }

    fn layout(&self, avail_size: &Size) -> LayoutResult {
        Ok(LayoutSize::min_max(Size::new(1, 1).min(*avail_size), Size::new(1, 1).min(*avail_size)))
    }

    fn render(&self, _ctx: &mut RenderCtx) -> RenderResult {
        Err(RenderError::Layout(LayoutError::InsufficientSpace))
    }

    fn has_capability(&self, _capability: &Capability) -> bool {
        false
    }
}

#[test]
fn a_stack_ends_with_the_child_that_has_no_room() {
    let full = Err(RenderError::Layout(LayoutError::InsufficientSpace));
    assert_eq!(after_child(true, full), Some(full));
    assert_eq!(after_child(false, full), Some(Ok(())));
    assert_eq!(after_child(true, Ok(())), None);
    assert_eq!(after_child(false, Ok(())), None);
    assert_eq!(after_child(true, Err(RenderError::Layout(LayoutError::Unknown))), None);
    let glyph = |ctx: &RenderCtx| ctx.get_canvas().draw_cell(Point::new(0, 0)).unwrap().glyph;
    let children = || -> Vec<Box<dyn Widget>> { vec![Box::new(Cramped), Box::new("ab")] };
    // a box drops the error of what it holds: the stack goes on
    let boxed = Stack::<Vec<Box<dyn Widget>>>::new().children(children());
    let mut ctx = RenderCtx::new(Size::new(3, 1), false).unwrap();
    assert_eq!(boxed.render(&mut ctx), Ok(()));
    assert_eq!(glyph(&ctx), Some('a'));
    // all children must fit: the error ends the render and is returned
    let strict = Stack::new().child(Cramped).child(Cramped);
    let mut ctx = RenderCtx::new(Size::new(3, 1), false).unwrap();
    assert_eq!(strict.render(&mut ctx), full);
    // else it ends the render without an error
    let lenient = Stack::new().child(Cramped).child(Cramped).must_fit_all_children(false);
    let mut ctx = RenderCtx::new(Size::new(3, 1), false).unwrap();
    assert_eq!(lenient.render(&mut ctx), Ok(()));
    assert_eq!(glyph(&ctx), None);
}
