use witui::canvas::{Canvas, Cell, Instruction};
use witui::geometry::{Point, Rect, Size};
use witui::layout::{LayoutError, RenderError};
use witui::render::{RenderCtx, Renderer};
use witui::style::{Attribute, Attributes, Color, Style};
use witui::widgets::{FillChar, Padding, Widget};

fn row_text(canvas: &Canvas, y: usize) -> String {
    let width = canvas.get_size().width;
    (0..width)
        .map(|x| canvas.draw_cell(Point::new(x, y)).unwrap().glyph.unwrap_or('.'))
        .collect()
}

#[test]
fn renderer_refuses_empty_screens() {
    assert!(Renderer::new(Size::new(0, 0), false).is_none());
    assert!(RenderCtx::new(Size::new(3, 0), true).is_none());
    let renderer = Renderer::new(Size::new(3, 2), true).unwrap();
    assert!(renderer.is_alternate());
    assert_eq!(renderer.get_frame(), Rect::from_size(Size::new(3, 2)));
    assert_eq!(renderer.get_cursor(), Point::new(0, 0));
}

#[test]
fn renderer_write_stops_at_the_frame() {
    let mut renderer = Renderer::new(Size::new(6, 2), false).unwrap();
    renderer.set_frame(Rect::new(Point::new(1, 0), Size::new(3, 2)));
    renderer.write("abcdef");
    assert_eq!(row_text(renderer.get_canvas(), 0), ".abc..");
    assert_eq!(renderer.get_cursor(), Point::new(4, 0));
    renderer.write("x");
    assert_eq!(row_text(renderer.get_canvas(), 0), ".abc..");
    renderer.next_line();
    assert_eq!(renderer.get_cursor(), Point::new(1, 1));
    renderer.write_prefix("hello", 2);
    renderer.write_char('!');
    assert_eq!(row_text(renderer.get_canvas(), 1), ".he!..");
    renderer.next_line();
    assert_eq!(renderer.get_cursor(), Point::new(4, 1));
}

#[test]
fn renderer_moves_the_cursor_inside_the_frame_only() {
    let mut renderer = Renderer::new(Size::new(6, 4), false).unwrap();
    renderer.set_frame(Rect::new(Point::new(1, 1), Size::new(3, 2)));
    assert_eq!(renderer.move_to(0, 1), None);
    assert_eq!(renderer.move_to(5, 1), None);
    assert_eq!(renderer.move_to(2, 0), None);
    assert_eq!(renderer.move_to(2, 4), None);
    assert_eq!(renderer.get_cursor(), Point::new(1, 1));
    assert_eq!(renderer.move_to(3, 2), Some(()));
    assert_eq!(renderer.get_cursor(), Point::new(3, 2));
    assert_eq!(renderer.move_to_column_relative(4), None);
    assert_eq!(renderer.move_to_column_relative(1), Some(()));
    assert_eq!(renderer.get_cursor(), Point::new(2, 2));
    renderer.move_right(10);
    assert_eq!(renderer.get_cursor(), Point::new(4, 2));
}

#[test]
fn renderer_styles_its_frame() {
    let mut renderer = Renderer::new(Size::new(3, 1), false).unwrap();
    renderer.set_frame(Rect::new(Point::new(1, 0), Size::new(1, 1)));
    renderer.set_background(&Color::Blue);
    renderer.set_foreground(&Color::White);
    renderer.add_attributes(Attributes::only(Attribute::Bold));
    renderer.add_attributes(Attributes::only(Attribute::Dim));
    renderer.fill('#');
    let styled = renderer.get_canvas().draw_cell(Point::new(1, 0)).unwrap();
    assert_eq!(
        styled,
        Cell {
            glyph: Some('#'),
            fg: Some(Color::White),
            bg: Some(Color::Blue),
            attrs: Attributes::only(Attribute::Bold).with(Attribute::Dim),
        }
    );
    assert_eq!(renderer.get_canvas().draw_cell(Point::new(0, 0)), Some(Cell::default()));
    assert_eq!(renderer.get_canvas().draw_cell(Point::new(2, 0)), Some(Cell::default()));
    renderer.set_attributes(Attributes::only(Attribute::Italic));
    assert_eq!(
        renderer.get_canvas().draw_cell(Point::new(1, 0)).unwrap().attrs,
        Attributes::only(Attribute::Italic)
    );
}

#[test]
fn renderer_flush_and_resize() {
    let mut renderer = Renderer::new(Size::new(2, 1), true).unwrap();
    renderer.write("ab");
    assert_eq!(renderer.flush(), vec![Instruction::Print('a'), Instruction::Print('b')]);
    assert!(!renderer.resize(0, 3));
    assert_eq!(renderer.get_frame(), Rect::from_size(Size::new(2, 1)));
    assert!(renderer.resize(1, 2));
    assert_eq!(renderer.get_frame(), Rect::from_size(Size::new(1, 2)));
    assert_eq!(renderer.get_cursor(), Point::new(0, 0));
    assert_eq!(
        renderer.flush(),
        vec![
            Instruction::Print(' '),
            Instruction::MoveCursor { x: 0, y: 1 },
            Instruction::Print(' '),
        ]
    );
    renderer.force_render_once();
    assert_eq!(renderer.flush().len(), 3);
}

#[test]
fn child_is_clipped_to_the_frame_of_its_parent() {
    let mut ctx = RenderCtx::new(Size::new(6, 4), false).unwrap();
    // the parent gets the middle of the screen
    let parent = Padding::all(1).child(Padding::all(0).left(1).child(FillChar::new('#')));
    parent.render(&mut ctx).unwrap();
    assert_eq!(row_text(ctx.get_canvas(), 0), "......");
    assert_eq!(row_text(ctx.get_canvas(), 1), "..###.");
    assert_eq!(row_text(ctx.get_canvas(), 2), "..###.");
    assert_eq!(row_text(ctx.get_canvas(), 3), "......");
    assert_eq!(ctx.get_frame(), Rect::from_size(Size::new(6, 4)));
}

#[test]
fn child_frame_beyond_the_parent_is_cut() {
    let mut ctx = RenderCtx::new(Size::new(4, 3), false).unwrap();
    let fill = FillChar::new('x');
    ctx.render_child(Rect::new(Point::new(2, 1), Size::new(10, 10)), &fill).unwrap();
    assert_eq!(row_text(ctx.get_canvas(), 0), "....");
    assert_eq!(row_text(ctx.get_canvas(), 1), "..xx");
    assert_eq!(row_text(ctx.get_canvas(), 2), "..xx");
    assert_eq!(ctx.get_frame(), Rect::from_size(Size::new(4, 3)));
}

#[test]
fn child_outside_the_frame_is_skipped() {
    let mut ctx = RenderCtx::new(Size::new(4, 3), false).unwrap();
    let fill = FillChar::new('x');
    assert_eq!(ctx.render_child(Rect::new(Point::new(4, 0), Size::new(2, 2)), &fill), Ok(()));
    assert_eq!(ctx.render_child_widget(Rect::new(Point::new(1, 1), Size::new(0, 2)), &fill), Ok(()));
    for y in 0..3 {
        assert_eq!(row_text(ctx.get_canvas(), y), "....");
    }
}

#[test]
fn frame_is_restored_after_a_failing_child() {
    let mut ctx = RenderCtx::new(Size::new(4, 3), false).unwrap();
    let child = Padding::all(2).child(FillChar::new('x'));
    let result = ctx.render_child(Rect::new(Point::new(1, 1), Size::new(3, 2)), &child);
    assert_eq!(result, Err(RenderError::Layout(LayoutError::InsufficientSpace)));
    assert_eq!(ctx.get_frame(), Rect::from_size(Size::new(4, 3)));
    for y in 0..3 {
        assert_eq!(row_text(ctx.get_canvas(), y), "....");
    }
}

#[test]
fn context_resize_reframes_on_the_whole_screen() {
    let mut ctx = RenderCtx::new(Size::new(4, 3), true).unwrap();
    assert!(ctx.resize(2, 2));
    assert_eq!(ctx.get_frame(), Rect::from_size(Size::new(2, 2)));
    assert_eq!(ctx.canvas_size(), Size::new(2, 2));
    assert_eq!(ctx.flush().iter().filter(|op| matches!(op, Instruction::Print(_))).count(), 4);
    assert!(!ctx.resize(0, 0));
    assert_eq!(ctx.canvas_size(), Size::new(2, 2));
}

#[test]
fn styled_child_paints_on_the_styled_frame() {
    let mut ctx = RenderCtx::new(Size::new(3, 1), false).unwrap();
    let widget = Style::new().fg(Color::Red).bg(Color::Black).attr(Attribute::Bold).child("ab");
    widget.render(&mut ctx).unwrap();
    let first = ctx.get_canvas().draw_cell(Point::new(0, 0)).unwrap();
    assert_eq!(first.glyph, Some('a'));
    assert_eq!(first.fg, Some(Color::Red));
    assert_eq!(first.bg, Some(Color::Black));
    assert!(first.attrs.has(Attribute::Bold));
    let last = ctx.get_canvas().draw_cell(Point::new(2, 0)).unwrap();
    assert_eq!(last.glyph, None);
    assert_eq!(last.bg, Some(Color::Black));
}
