use witui::canvas::Canvas;
use witui::geometry::{Point, Rect, SideOffsets, Size};
use witui::layout::{FlexFit, LayoutError, LayoutSize, RenderError};
use witui::render::RenderCtx;
use witui::style::Style;
use witui::widgets::align::{
    Align, HorizontalAlignment, HorizontalSide, VerticalAlignment, VerticalSide,
};
use witui::widgets::borders::{frames_for, Borders};
use witui::widgets::{
    AnyEvent, Button, CheckBox, Column, Event, EventResult, Expand, Expanded, FillChar, Flexible,
    KeyCode, KeyEvent, KeyModifiers, Leak, Min, Minimize, MouseButton, MouseEvent, MouseEventKind,
    Padding, Repeat, RowView, Stack, Widget,
};

fn row_text(canvas: &Canvas, y: usize) -> String {
    let width = canvas.get_size().width;
    (0..width)
        .map(|x| canvas.draw_cell(Point::new(x, y)).unwrap().glyph.unwrap_or('.'))
        .collect()
}

fn screen(ctx: &RenderCtx) -> Vec<String> {
    (0..ctx.canvas_size().height).map(|y| row_text(ctx.get_canvas(), y)).collect()
}

fn range(min: (usize, usize), max: (usize, usize), flex: usize, fit: FlexFit) -> LayoutSize {
    LayoutSize { min: Size::new(min.0, min.1), max: Size::new(max.0, max.1), flex, fit }
}

#[test]
fn str_reports_one_line() {
    assert_eq!("hello".layout(&Size::new(80, 24)), Ok(range((1, 1), (5, 1), 0, FlexFit::Tight)));
    assert_eq!("hello".layout(&Size::new(3, 24)), Ok(range((1, 1), (3, 1), 0, FlexFit::Tight)));
    assert_eq!("".layout(&Size::new(3, 24)), Ok(range((1, 1), (1, 1), 0, FlexFit::Tight)));
    assert_eq!("hello".layout(&Size::new(0, 24)), Err(LayoutError::InsufficientSpace));
    assert_eq!(String::from("héllo").layout(&Size::new(80, 1)), Ok(range((1, 1), (5, 1), 0, FlexFit::Tight)));
    assert_eq!('x'.layout(&Size::new(80, 1)), Ok(range((1, 1), (1, 1), 0, FlexFit::Tight)));
    assert_eq!('x'.layout(&Size::new(80, 0)), Err(LayoutError::InsufficientSpace));
    assert_eq!(().layout(&Size::new(0, 0)), Ok(range((0, 0), (0, 0), 0, FlexFit::Tight)));
}

#[test]
fn overflowing_text_ends_in_an_ellipsis() {
    let mut ctx = RenderCtx::new(Size::new(5, 2), false).unwrap();
    "overflowing".render(&mut ctx).unwrap();
    assert_eq!(screen(&ctx), vec!["over…", "....."]);
    let mut ctx = RenderCtx::new(Size::new(5, 1), false).unwrap();
    "fits!".render(&mut ctx).unwrap();
    assert_eq!(screen(&ctx), vec!["fits!"]);
    let mut ctx = RenderCtx::new(Size::new(5, 1), false).unwrap();
    String::from("exceeds").render(&mut ctx).unwrap();
    assert_eq!(screen(&ctx), vec!["exce…"]);
    let mut ctx = RenderCtx::new(Size::new(2, 1), false).unwrap();
    Box::new('c').render(&mut ctx).unwrap();
    assert_eq!(screen(&ctx), vec!["c."]);
}

#[test]
fn padding_adds_its_offsets_to_the_range_of_the_child() {
    let padding = Padding::default().top(1).left(2).right(3).bottom(4).child("hello");
    assert_eq!(padding.offsets, SideOffsets::new(1, 3, 4, 2));
    let available = Size::new(20, 10);
    let inner = "hello".layout(&Size::new(15, 5)).unwrap();
    let outer = padding.layout(&available).unwrap();
    assert_eq!(outer.min, Size::new(inner.min.width + 5, inner.min.height + 5));
    assert_eq!(outer.max, Size::new(inner.max.width + 5, inner.max.height + 5));
    assert_eq!(outer, range((6, 6), (10, 6), 0, FlexFit::Tight));
    // the child sees what is left inside the padding
    assert_eq!(padding.layout(&Size::new(8, 6)).unwrap().max, Size::new(8, 6));
    assert_eq!(padding.layout(&Size::new(5, 5)), Err(LayoutError::InsufficientSpace));
    assert_eq!(padding.layout(&Size::new(4, 9)), Err(LayoutError::InsufficientSpace));
    assert_eq!(Padding::all(2).offsets, SideOffsets::new(2, 2, 2, 2));
}

#[test]
fn padding_renders_the_child_inside() {
    let mut ctx = RenderCtx::new(Size::new(6, 3), false).unwrap();
    Padding::default().top(1).left(2).child("hi").render(&mut ctx).unwrap();
    assert_eq!(screen(&ctx), vec!["......", "..hi..", "......"]);
    let mut ctx = RenderCtx::new(Size::new(3, 1), false).unwrap();
    assert_eq!(
        Padding::all(1).child("hi").render(&mut ctx),
        Err(RenderError::Layout(LayoutError::InsufficientSpace))
    );
    assert_eq!(screen(&ctx), vec!["..."]);
}

#[test]
fn four_borders_add_two_cells_per_axis() {
    let borders = Borders::with_child("hello").borders_line(Style::new());
    let inner = "hello".layout(&Size::new(18, 8)).unwrap();
    let outer = borders.layout(&Size::new(20, 10)).unwrap();
    assert_eq!(outer.min, Size::new(inner.min.width + 2, inner.min.height + 2));
    assert_eq!(outer.max, Size::new(inner.max.width + 2, inner.max.height + 2));
    assert_eq!(outer, range((3, 3), (7, 3), 0, FlexFit::Tight));
    assert_eq!(borders.layout(&Size::new(2, 2)), Err(LayoutError::InsufficientSpace));
    assert_eq!(borders.layout(&Size::new(1, 5)), Err(LayoutError::InsufficientSpace));
}

#[test]
fn no_borders_are_transparent() {
    let bare: Borders<FillChar, &str> = Borders::with_child("hello");
    for width in 0..8 {
        let available = Size::new(width, 2);
        assert_eq!(bare.layout(&available), "hello".layout(&available));
    }
    let one_side = Borders::with_child("hello").top(FillChar::new('-'));
    assert_eq!(one_side.layout(&Size::new(9, 9)), Ok(range((1, 2), (5, 2), 0, FlexFit::Tight)));
}

#[test]
fn borders_are_drawn_around_the_child() {
    let mut ctx = RenderCtx::new(Size::new(6, 4), false).unwrap();
    Borders::with_child("hi").borders_line(Style::new()).render(&mut ctx).unwrap();
    assert_eq!(screen(&ctx), vec!["┌──┐..", "│hi│..", "└──┘..", "......"]);
    let mut ctx = RenderCtx::new(Size::new(4, 3), false).unwrap();
    Borders::with_child(FillChar::new(' ')).borders_double(Style::new()).render(&mut ctx).unwrap();
    assert_eq!(screen(&ctx), vec!["╔══╗", "║  ║", "╚══╝"]);
    let mut ctx = RenderCtx::new(Size::new(3, 3), false).unwrap();
    Borders::with_child('x').borders_cross(Style::new()).render(&mut ctx).unwrap();
    assert_eq!(screen(&ctx), vec!["+-+", "|x|", "+-+"]);
    let mut ctx = RenderCtx::new(Size::new(3, 3), false).unwrap();
    Borders::with_child('x').borders_dash(Style::new()).render(&mut ctx).unwrap();
    assert_eq!(screen(&ctx), vec!["┌-┐", "|x|", "└-┘"]);
    let mut ctx = RenderCtx::new(Size::new(3, 3), false).unwrap();
    Borders::with_child('x').borders_rounded(Style::new()).render(&mut ctx).unwrap();
    assert_eq!(screen(&ctx), vec!["╭─╮", "│x│", "╰─╯"]);
}

#[test]
fn corners_need_both_of_their_sides() {
    let mut ctx = RenderCtx::new(Size::new(3, 2), false).unwrap();
    let widget = Borders::with_child("ab")
        .top(FillChar::new('-'))
        .left(FillChar::new('|'))
        .top_left(FillChar::new('+'))
        .top_right(FillChar::new('*'))
        .bottom_left(FillChar::new('*'))
        .bottom_right(FillChar::new('*'));
    widget.render(&mut ctx).unwrap();
    assert_eq!(screen(&ctx), vec!["+--", "|ab"]);
    let frames = frames_for(&Rect::new(Point::new(1, 1), Size::new(5, 4)), SideOffsets::new(1, 1, 1, 1));
    assert_eq!(frames.top, Rect::new(Point::new(2, 1), Size::new(3, 1)));
    assert_eq!(frames.bottom, Rect::new(Point::new(2, 4), Size::new(3, 1)));
    assert_eq!(frames.left, Rect::new(Point::new(1, 2), Size::new(1, 2)));
    assert_eq!(frames.right, Rect::new(Point::new(5, 2), Size::new(1, 2)));
    assert_eq!(frames.top_left, Rect::new(Point::new(1, 1), Size::new(1, 1)));
    assert_eq!(frames.bottom_right, Rect::new(Point::new(5, 4), Size::new(1, 1)));
    assert_eq!(frames.child, Rect::new(Point::new(2, 2), Size::new(3, 2)));
}

#[test]
fn borders_keep_their_child_and_edges_when_rebuilt() {
    let widget = Borders::new().right(Style::new().child(FillChar::new('|'))).child("x");
    assert_eq!(widget.edge_offsets(), SideOffsets::new(0, 1, 0, 0));
    assert_eq!(widget.child, "x");
    let widget = widget.bottom(Style::new().child(FillChar::new('_')));
    assert_eq!(widget.edge_offsets(), SideOffsets::new(0, 1, 1, 0));
}

#[test]
fn expanded_takes_all_that_is_available() {
    let available = Size::new(20, 4);
    assert_eq!(Expanded::child("hi").layout(&available), Ok(range((1, 1), (20, 4), 1, FlexFit::Tight)));
    assert_eq!(
        Expanded::flex_child(3, "hi").layout(&available),
        Ok(range((1, 1), (20, 4), 3, FlexFit::Tight))
    );
    assert_eq!(Expand::child("hi").layout(&available), Ok(range((1, 1), (20, 4), 1, FlexFit::Tight)));
    assert_eq!(Expand::child("hi").layout(&Size::new(0, 0)), Err(LayoutError::InsufficientSpace));
    assert_eq!(
        Flexible::loose(2).child("hello").layout(&available),
        Ok(range((1, 1), (5, 1), 2, FlexFit::Loose))
    );
    assert_eq!(
        Flexible::tight(4).child("hello").layout(&available),
        Ok(range((1, 1), (5, 1), 4, FlexFit::Tight))
    );
}

#[test]
fn fill_char_fills_its_frame() {
    let fill = FillChar::new('~');
    assert_eq!(fill.layout(&Size::new(3, 2)), Ok(range((3, 2), (3, 2), 0, FlexFit::Tight)));
    let mut ctx = RenderCtx::new(Size::new(3, 2), false).unwrap();
    fill.render(&mut ctx).unwrap();
    assert_eq!(screen(&ctx), vec!["~~~", "~~~"]);
}

#[test]
fn row_places_children_side_by_side() {
    let row = RowView::new().child("ab").child("cde").child("f");
    let available = Size::new(10, 3);
    assert_eq!(row.layout(&available), Ok(range((6, 1), (6, 1), 0, FlexFit::Loose)));
    let frames = row.child_frames(&Rect::new(Point::new(1, 1), Size::new(10, 3))).unwrap();
    assert_eq!(
        frames,
        vec![
            Rect::new(Point::new(1, 1), Size::new(2, 3)),
            Rect::new(Point::new(3, 1), Size::new(3, 3)),
            Rect::new(Point::new(6, 1), Size::new(1, 3)),
        ]
    );
    let mut ctx = RenderCtx::new(Size::new(8, 2), false).unwrap();
    row.render(&mut ctx).unwrap();
    assert_eq!(screen(&ctx), vec!["abcdef..", "........"]);
}

#[test]
fn row_distributes_leftover_width() {
    let row = RowView::new()
        .child(Flexible::loose(1).child("ab"))
        .child(Flexible::tight(1).child("cd"))
        .child(Flexible::loose(0).child("ef"));
    let (layout, inputs) = row.layout_impl(&Size::new(12, 1)).unwrap();
    assert_eq!(layout, range((4, 1), (6, 1), 0, FlexFit::Loose));
    assert_eq!(inputs.len(), 3);
    assert_eq!((inputs[0].min, inputs[0].max, inputs[0].flex), (1, 2, 1));
    assert_eq!((inputs[2].min, inputs[2].max, inputs[2].flex), (2, 2, 0));
    let frames = row.child_frames(&Rect::from_size(Size::new(12, 1))).unwrap();
    let widths: Vec<usize> = frames.iter().map(|f| f.size.width).collect();
    // free 8: the loose child takes 1 up to its maximum of 2, the tight child
    // the remaining 7
    assert_eq!(widths, vec![2, 8, 2]);
    assert_eq!(frames[1].origin, Point::new(2, 0));
    assert_eq!(frames[2].origin, Point::new(10, 0));
}

#[test]
fn row_leaves_out_what_does_not_fit() {
    let row = RowView::new().child("abc").child("de").child("fgh");
    let layout = row.layout(&Size::new(4, 1)).unwrap();
    assert_eq!(layout, range((4, 1), (4, 1), 0, FlexFit::Loose));
    let frames = row.child_frames(&Rect::from_size(Size::new(3, 1))).unwrap();
    assert_eq!(frames, vec![Rect::from_size(Size::new(3, 1))]);
    let mut ctx = RenderCtx::new(Size::new(3, 1), false).unwrap();
    row.render(&mut ctx).unwrap();
    assert_eq!(screen(&ctx), vec!["abc"]);
    let strict = RowView::new().child("abc").child("de").must_fit_all_children(true);
    assert_eq!(strict.layout(&Size::new(3, 1)), Err(LayoutError::InsufficientSpace));
    let mut ctx = RenderCtx::new(Size::new(3, 1), false).unwrap();
    assert_eq!(strict.render(&mut ctx), Err(RenderError::Layout(LayoutError::InsufficientSpace)));
    assert_eq!(screen(&ctx), vec!["..."]);
    assert_eq!(strict.layout(&Size::new(5, 1)), Ok(range((5, 1), (5, 1), 0, FlexFit::Loose)));
}

#[test]
fn column_places_children_one_below_the_other() {
    let column = Column::<Vec<&str>>::new().children(vec!["ab", "cdef", "g"]);
    assert_eq!(column.layout(&Size::new(10, 5)), Ok(range((4, 3), (4, 3), 0, FlexFit::Loose)));
    let frames = column.child_frames(&Rect::new(Point::new(2, 1), Size::new(6, 5))).unwrap();
    assert_eq!(
        frames,
        vec![
            Rect::new(Point::new(2, 1), Size::new(6, 1)),
            Rect::new(Point::new(2, 2), Size::new(6, 1)),
            Rect::new(Point::new(2, 3), Size::new(6, 1)),
        ]
    );
    let mut ctx = RenderCtx::new(Size::new(4, 4), false).unwrap();
    column.render(&mut ctx).unwrap();
    assert_eq!(screen(&ctx), vec!["ab..", "cdef", "g...", "...."]);
}

#[test]
fn column_of_boxed_children_of_different_kinds() {
    let column = Column::<Vec<Box<dyn Widget>>>::new()
        .child(Box::new("ab"))
        .child(Box::new(Expanded::child(Min::zero().child(FillChar::new('#')))))
        .child(Box::new("cd"));
    assert_eq!(column.layout(&Size::new(4, 5)), Ok(range((2, 2), (4, 5), 0, FlexFit::Loose)));
    let mut ctx = RenderCtx::new(Size::new(4, 5), false).unwrap();
    column.render(&mut ctx).unwrap();
    assert_eq!(screen(&ctx), vec!["ab..", "####", "####", "####", "cd.."]);
    // a child that needs all the room leaves none to those after it
    let greedy = Column::<Vec<Box<dyn Widget>>>::new()
        .child(Box::new("ab"))
        .child(Box::new(Expanded::child(FillChar::new('#'))))
        .child(Box::new("cd"));
    assert_eq!(greedy.layout(&Size::new(4, 5)), Ok(range((4, 5), (4, 5), 0, FlexFit::Loose)));
    let mut ctx = RenderCtx::new(Size::new(4, 5), false).unwrap();
    greedy.render(&mut ctx).unwrap();
    assert_eq!(screen(&ctx), vec!["ab..", "####", "####", "####", "####"]);
}

#[test]
fn stack_reports_the_largest_child_and_paints_in_order() {
    let stack = Stack::new().child("abcd").child("xy");
    assert!(stack.must_fit_all_children);
    assert_eq!(stack.layout(&Size::new(10, 3)), Ok(range((1, 1), (4, 1), 0, FlexFit::Loose)));
    let mut ctx = RenderCtx::new(Size::new(5, 1), false).unwrap();
    stack.render(&mut ctx).unwrap();
    assert_eq!(screen(&ctx), vec!["xycd."]);
    assert_eq!(stack.layout(&Size::new(0, 3)), Err(LayoutError::InsufficientSpace));
    let lenient =
        Stack::<Vec<&str>>::new().children(vec!["abcd", "xy"]).must_fit_all_children(false);
    assert_eq!(lenient.layout(&Size::new(0, 3)), Ok(range((0, 0), (0, 0), 0, FlexFit::Loose)));
    let empty: Stack<Vec<&str>> = Stack::new();
    assert_eq!(empty.layout(&Size::new(4, 4)), Ok(range((0, 0), (0, 0), 0, FlexFit::Loose)));
}

#[test]
fn repeat_tiles_its_frame() {
    let repeat = Repeat::child("ab");
    assert_eq!(repeat.layout(&Size::new(5, 2)), Ok(range((1, 1), (5, 2), 0, FlexFit::Tight)));
    let mut ctx = RenderCtx::new(Size::new(4, 2), false).unwrap();
    repeat.render(&mut ctx).unwrap();
    assert_eq!(screen(&ctx), vec!["abab", "abab"]);
    // the last tile of a row is cut off at the frame, where the child shows
    // that it does not fit
    let mut ctx = RenderCtx::new(Size::new(5, 2), false).unwrap();
    repeat.render(&mut ctx).unwrap();
    assert_eq!(screen(&ctx), vec!["abab…", "abab…"]);
    let mut ctx = RenderCtx::new(Size::new(3, 1), false).unwrap();
    Repeat::child(()).render(&mut ctx).unwrap();
    assert_eq!(screen(&ctx), vec!["..."]);
    // the last tile of a row is left out when the child cannot do with less
    let wide = Repeat::child(Min::min(Size::new(2, 1)).child("ab"));
    let mut ctx = RenderCtx::new(Size::new(5, 1), false).unwrap();
    wide.render(&mut ctx).unwrap();
    assert_eq!(screen(&ctx), vec!["abab."]);
}

#[test]
fn leak_asks_for_one_cell_and_paints_what_fits() {
    let leak = Leak::child(Padding::all(1).child("hello"));
    assert_eq!(
        Padding::all(1).child("hello").layout(&Size::new(4, 2)),
        Err(LayoutError::InsufficientSpace)
    );
    assert_eq!(leak.layout(&Size::new(4, 2)), Ok(range((1, 1), (4, 2), 0, FlexFit::Tight)));
    assert_eq!(leak.layout(&Size::new(20, 20)), Ok(range((1, 1), (7, 3), 0, FlexFit::Tight)));
    assert_eq!(leak.layout(&Size::new(0, 20)), Ok(range((0, 1), (0, 3), 0, FlexFit::Tight)));
    // what is painted stays inside the frame
    let mut ctx = RenderCtx::new(Size::new(4, 3), false).unwrap();
    leak.render(&mut ctx).unwrap();
    assert_eq!(screen(&ctx), vec!["....", ".h….", "...."]);
    let mut ctx = RenderCtx::new(Size::new(4, 2), false).unwrap();
    leak.render(&mut ctx).unwrap();
    assert_eq!(screen(&ctx), vec!["....", "...."]);
}

#[test]
fn min_replaces_the_minimum() {
    let min = Min::min(Size::new(3, 2)).child("hello");
    assert_eq!(min.layout(&Size::new(10, 4)), Ok(range((3, 2), (5, 2), 0, FlexFit::Tight)));
    assert_eq!(min.layout(&Size::new(2, 4)), Err(LayoutError::InsufficientSpace));
    let zero = Min::zero().child(Padding::all(2).child("x"));
    assert_eq!(zero.layout(&Size::new(3, 3)), Ok(range((0, 0), (0, 0), 0, FlexFit::Tight)));
    let mut ctx = RenderCtx::new(Size::new(3, 3), false).unwrap();
    assert_eq!(zero.render(&mut ctx), Ok(()));
    assert_eq!(screen(&ctx), vec!["...", "...", "..."]);
    let mut ctx = RenderCtx::new(Size::new(5, 5), false).unwrap();
    zero.render(&mut ctx).unwrap();
    assert_eq!(screen(&ctx)[2], "..x..");
    let mut ctx = RenderCtx::new(Size::new(2, 1), false).unwrap();
    assert_eq!(min.render(&mut ctx), Err(RenderError::Layout(LayoutError::InsufficientSpace)));
}

#[test]
fn minimize_paints_a_child_that_does_not_fit() {
    let widget = Minimize::zero().child(Padding::all(1).child("hello"));
    assert_eq!(widget.layout(&Size::new(4, 2)), Ok(range((0, 0), (0, 0), 0, FlexFit::Tight)));
    let mut ctx = RenderCtx::new(Size::new(4, 2), false).unwrap();
    assert_eq!(widget.render(&mut ctx), Ok(()));
    assert_eq!(screen(&ctx), vec!["....", "...."]);
    let mut ctx = RenderCtx::new(Size::new(4, 3), false).unwrap();
    widget.render(&mut ctx).unwrap();
    assert_eq!(screen(&ctx), vec!["....", ".h….", "...."]);
    let strict = Minimize::min(Size::new(5, 1)).child("x");
    assert_eq!(strict.layout(&Size::new(4, 2)), Err(LayoutError::InsufficientSpace));
    let mut ctx = RenderCtx::new(Size::new(4, 2), false).unwrap();
    assert_eq!(strict.render(&mut ctx), Err(RenderError::Layout(LayoutError::InsufficientSpace)));
}

#[test]
fn align_places_the_child_in_the_frame() {
    let frame = Rect::new(Point::new(1, 1), Size::new(7, 4));
    let max = Size::new(2, 1);
    assert_eq!(Align::top_left("ab").child_frame(&frame, max), Rect::new(Point::new(1, 1), max));
    assert_eq!(Align::top_center("ab").child_frame(&frame, max), Rect::new(Point::new(3, 1), max));
    assert_eq!(Align::top_right("ab").child_frame(&frame, max), Rect::new(Point::new(6, 1), max));
    assert_eq!(Align::middle_left("ab").child_frame(&frame, max), Rect::new(Point::new(1, 2), max));
    assert_eq!(Align::center("ab").child_frame(&frame, max), Rect::new(Point::new(3, 2), max));
    assert_eq!(Align::middle_right("ab").child_frame(&frame, max), Rect::new(Point::new(6, 2), max));
    assert_eq!(Align::bottom_left("ab").child_frame(&frame, max), Rect::new(Point::new(1, 4), max));
    assert_eq!(Align::bottom_center("ab").child_frame(&frame, max), Rect::new(Point::new(3, 4), max));
    assert_eq!(Align::bottom_right("ab").child_frame(&frame, max), Rect::new(Point::new(6, 4), max));
    let rounded = Align::center("ab")
        .horizontal(HorizontalAlignment::Center { round_to: HorizontalSide::Right })
        .vertical(VerticalAlignment::Middle { round_to: VerticalSide::Bottom });
    assert_eq!(rounded.child_frame(&frame, max), Rect::new(Point::new(4, 3), max));
    // a child larger than the frame gets the frame
    assert_eq!(Align::center("ab").child_frame(&frame, Size::new(9, 9)), frame);
    let mut ctx = RenderCtx::new(Size::new(6, 3), false).unwrap();
    Align::bottom_right("ab").render(&mut ctx).unwrap();
    assert_eq!(screen(&ctx), vec!["......", "......", "....ab"]);
    assert_eq!(Align::center("ab").layout(&Size::new(9, 9)), "ab".layout(&Size::new(9, 9)));
}

fn mouse(kind: MouseEventKind) -> AnyEvent {
    AnyEvent::Input(Event::Mouse(MouseEvent { kind, column: 0, row: 0, modifiers: KeyModifiers::empty() }))
}

fn key(code: KeyCode) -> AnyEvent {
    AnyEvent::Input(Event::Key(KeyEvent { code, modifiers: KeyModifiers::empty() }))
}

#[test]
fn checkbox_toggles_on_mouse_press() {
    let mut checkbox = CheckBox::new();
    assert!(!checkbox.is_marked());
    let size = Size::new(1, 1);
    assert_eq!(checkbox.event(&mouse(MouseEventKind::Down(MouseButton::Left)), &size), EventResult::Done);
    assert!(checkbox.is_marked());
    assert_eq!(checkbox.event(&mouse(MouseEventKind::Up(MouseButton::Left)), &size), EventResult::Unhandled);
    assert_eq!(checkbox.event(&key(KeyCode::Enter), &size), EventResult::Unhandled);
    assert!(checkbox.is_marked());
    assert_eq!(checkbox.event(&mouse(MouseEventKind::Down(MouseButton::Right)), &size), EventResult::Done);
    assert!(!checkbox.is_marked());
    let mut ctx = RenderCtx::new(Size::new(2, 1), false).unwrap();
    CheckBox::new().marked().render(&mut ctx).unwrap();
    CheckBox::new().marked().unmarked().render(&mut ctx).unwrap();
    assert_eq!(screen(&ctx), vec!["◉○"]);
    assert_eq!(checkbox.layout(&Size::new(5, 5)), Ok(range((1, 1), (1, 1), 0, FlexFit::Tight)));
}

#[test]
fn events_reach_the_child_through_wrappers() {
    let mut wrapped = Padding::all(1).child(Expanded::child(CheckBox::new()));
    let size = Size::new(3, 3);
    assert_eq!(wrapped.event(&mouse(MouseEventKind::Down(MouseButton::Left)), &size), EventResult::Done);
    assert!(wrapped.child.child.is_marked());
    assert_eq!(wrapped.event(&mouse(MouseEventKind::Moved), &size), EventResult::Unhandled);
    let mut row = RowView::new().child(CheckBox::new());
    assert_eq!(row.event(&mouse(MouseEventKind::Down(MouseButton::Left)), &size), EventResult::Unhandled);
    assert!(!row.children[0].is_marked());
}

#[test]
fn button_shows_its_label() {
    let button = Button::child("ok");
    assert_eq!(button.layout(&Size::new(5, 5)), "ok".layout(&Size::new(5, 5)));
    let mut ctx = RenderCtx::new(Size::new(3, 1), false).unwrap();
    button.render(&mut ctx).unwrap();
    assert_eq!(screen(&ctx), vec!["ok."]);
}
