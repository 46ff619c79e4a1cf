use witui::canvas::Canvas;
use witui::geometry::{Point, Size};
use witui::layout::{FlexFit, LayoutError, LayoutSize};
use witui::render::RenderCtx;
use witui::widgets::text::{
    has_plain_spaces, layout_lines, render_lines, Text, TextAlign, TextOverflow, TextWrap,
};
use witui::widgets::{
    AnyEvent, Event, EventResult, KeyCode, KeyEvent, KeyModifiers, MouseButton, MouseEvent,
    MouseEventKind, TextInput, Widget,
};

fn row_text(canvas: &Canvas, y: usize) -> String {
    let width = canvas.get_size().width;
    (0..width)
        .map(|x| canvas.draw_cell(Point::new(x, y)).unwrap().glyph.unwrap_or('.'))
        .collect()
}

fn screen(ctx: &RenderCtx) -> Vec<String> {
    (0..ctx.canvas_size().height).map(|y| row_text(ctx.get_canvas(), y)).collect()
}

fn lines(text: &[&str]) -> Vec<String> {
    text.iter().map(|line| line.to_string()).collect()
}

#[test]
fn new_text_is_left_aligned_and_wraps_words() {
    let text = Text::new("hello");
    assert_eq!(text.data, "hello");
    assert_eq!(text.wrap, TextWrap::Word);
    assert_eq!(text.align, TextAlign::Left);
    assert_eq!(text.overflow, TextOverflow::Fold);
    assert_eq!(text.align(TextAlign::Right).align, TextAlign::Right);
    assert_eq!(Text::from_text("héllo").data, "héllo");
    assert_eq!(Text::new(42).data, "42");
    assert_eq!(Text::new(String::from("owned")).data, "owned");
}

#[test]
fn lines_report_their_extent() {
    let three = lines(&["Memory safety", "without garbage", "collection."]);
    let range = |max: (usize, usize)| {
        Ok(LayoutSize {
            min: Size::new(1, 1),
            max: Size::new(max.0, max.1),
            flex: 0,
            fit: FlexFit::Tight,
        })
    };
    assert_eq!(layout_lines(&three, &Size::new(40, 10)), range((15, 3)));
    assert_eq!(layout_lines(&three, &Size::new(10, 2)), range((10, 2)));
    assert_eq!(layout_lines(&Vec::new(), &Size::new(10, 2)), range((1, 1)));
    assert_eq!(layout_lines(&three, &Size::new(0, 2)), Err(LayoutError::InsufficientSpace));
    assert_eq!(layout_lines(&lines(&["héé"]), &Size::new(9, 9)), range((3, 1)));
}

#[test]
fn text_is_wrapped_to_the_available_width() {
    let text = Text::new("Memory safety without garbage collection.");
    let layout = text.layout(&Size::new(15, 10)).unwrap();
    assert_eq!(layout.min, Size::new(1, 1));
    assert_eq!(layout.max, Size::new(15, 3));
    let wide = text.layout(&Size::new(80, 10)).unwrap();
    assert_eq!(wide.max, Size::new(41, 1));
    let mut ctx = RenderCtx::new(Size::new(15, 4), false).unwrap();
    text.render(&mut ctx).unwrap();
    assert_eq!(
        screen(&ctx),
        vec!["Memory safety..", "without garbage", "collection.....", "..............."]
    );
}

#[test]
fn lines_are_aligned_in_the_frame() {
    let two = lines(&["ab", "abcd"]);
    let mut ctx = RenderCtx::new(Size::new(6, 3), false).unwrap();
    render_lines(&two, TextAlign::Left, &mut ctx).unwrap();
    assert_eq!(screen(&ctx), vec!["ab....", "abcd..", "......"]);
    let mut ctx = RenderCtx::new(Size::new(6, 3), false).unwrap();
    render_lines(&two, TextAlign::Center, &mut ctx).unwrap();
    assert_eq!(screen(&ctx), vec!["..ab..", ".abcd.", "......"]);
    let mut ctx = RenderCtx::new(Size::new(6, 3), false).unwrap();
    render_lines(&two, TextAlign::Right, &mut ctx).unwrap();
    assert_eq!(screen(&ctx), vec!["....ab", "..abcd", "......"]);
    // no more lines than the frame is high, and none wider than the frame
    let mut ctx = RenderCtx::new(Size::new(3, 1), false).unwrap();
    render_lines(&two, TextAlign::Right, &mut ctx).unwrap();
    assert_eq!(screen(&ctx), vec![".ab"]);
    let mut ctx = RenderCtx::new(Size::new(3, 2), false).unwrap();
    render_lines(&two, TextAlign::Center, &mut ctx).unwrap();
    assert_eq!(screen(&ctx), vec!["ab.", "abc"]);
}

#[test]
fn aligned_text_is_wrapped_first() {
    let text = Text::new("aa bb cc").align(TextAlign::Right);
    let mut ctx = RenderCtx::new(Size::new(6, 2), false).unwrap();
    text.render(&mut ctx).unwrap();
    assert_eq!(screen(&ctx), vec![".aa bb", "....cc"]);
}

#[test]
fn justified_text_fills_the_width() {
    let text = Text::new("aa bb cc dd").align(TextAlign::Justify);
    let mut ctx = RenderCtx::new(Size::new(6, 3), false).unwrap();
    text.render(&mut ctx).unwrap();
    assert_eq!(screen(&ctx), vec!["aa  bb", "cc dd.", "......"]);
    let wide = Text::new("aa bb cc").align(TextAlign::Justify);
    let mut ctx = RenderCtx::new(Size::new(7, 2), false).unwrap();
    wide.render(&mut ctx).unwrap();
    assert_eq!(screen(&ctx), vec!["aa   bb", "cc....."]);
}

#[test]
fn text_that_cannot_be_justified_is_left_aligned() {
    // white space of more than one byte: the text is wrapped instead
    assert!(!has_plain_spaces("aa\u{2003}bb cc dd"));
    let text = Text::new("aa\u{2003}bb cc dd").align(TextAlign::Justify);
    let mut ctx = RenderCtx::new(Size::new(9, 2), false).unwrap();
    text.render(&mut ctx).unwrap();
    let wrapped = Text::new("aa\u{2003}bb cc dd");
    let mut other = RenderCtx::new(Size::new(9, 2), false).unwrap();
    wrapped.render(&mut other).unwrap();
    assert_eq!(screen(&ctx), screen(&other));
    assert_eq!(row_text(ctx.get_canvas(), 1), "cc dd....");
}

#[test]
fn letters_of_more_than_one_byte_are_justified_by_their_bytes() {
    assert!(has_plain_spaces("ää bb cc dd"));
    assert!(has_plain_spaces(""));
    assert!(!has_plain_spaces("a\u{a0}b"));
    let text = Text::new("ää bb cc dd").align(TextAlign::Justify);
    let mut ctx = RenderCtx::new(Size::new(8, 2), false).unwrap();
    text.render(&mut ctx).unwrap();
    assert_eq!(screen(&ctx), vec!["ää  bb..", "cc dd..."]);
}

#[test]
fn justified_paragraphs_are_cut_at_their_line_ends() {
    let text = Text::new("aa bb cc dd\nee ff").align(TextAlign::Justify);
    let mut ctx = RenderCtx::new(Size::new(6, 4), false).unwrap();
    text.render(&mut ctx).unwrap();
    assert_eq!(screen(&ctx), vec!["aa  bb", "cc dd.", "ee ff.", "......"]);
    // a carriage return before the line feed belongs to the line end, and
    // a line feed at the end opens no further line
    let text = Text::new("aa bb\r\ncc\n").align(TextAlign::Justify);
    let mut ctx = RenderCtx::new(Size::new(6, 3), false).unwrap();
    text.render(&mut ctx).unwrap();
    assert_eq!(screen(&ctx), vec!["aa bb.", "cc....", "......"]);
}

fn key(code: KeyCode, modifiers: KeyModifiers) -> AnyEvent {
    AnyEvent::Input(Event::Key(KeyEvent { code, modifiers }))
}

#[test]
fn keys_edit_the_text_of_an_input() {
    let none = KeyModifiers::empty();
    let shift = KeyModifiers { shift: true, control: false, alt: false };
    let control = KeyModifiers { shift: false, control: true, alt: false };
    let size = Size::new(10, 2);
    let mut input = TextInput::new();
    assert_eq!(input.text.data, "");
    assert_eq!(input.text.wrap, TextWrap::Word);
    assert_eq!(input.text.align, TextAlign::Left);
    assert_eq!(input.text.overflow, TextOverflow::Fold);
    assert_eq!(input.event(&key(KeyCode::Backspace, none), &size), EventResult::Done);
    assert_eq!(input.text.data, "");
    assert_eq!(input.event(&key(KeyCode::Char('h'), none), &size), EventResult::Done);
    assert_eq!(input.event(&key(KeyCode::Char('I'), shift), &size), EventResult::Done);
    assert_eq!(input.text.data, "hI");
    assert_eq!(input.event(&key(KeyCode::Char('c'), control), &size), EventResult::Unhandled);
    assert_eq!(input.event(&key(KeyCode::Left, none), &size), EventResult::Unhandled);
    assert_eq!(input.event(&key(KeyCode::F(1), none), &size), EventResult::Unhandled);
    assert_eq!(input.text.data, "hI");
    assert_eq!(input.event(&key(KeyCode::Enter, none), &size), EventResult::Done);
    assert_eq!(input.text.data, "hI\n");
    assert_eq!(input.event(&key(KeyCode::Backspace, none), &size), EventResult::Done);
    assert_eq!(input.event(&key(KeyCode::Backspace, control), &size), EventResult::Done);
    assert_eq!(input.text.data, "h");
    let press = AnyEvent::Input(Event::Mouse(MouseEvent {
        kind: MouseEventKind::Down(MouseButton::Left),
        column: 0,
        row: 0,
        modifiers: none,
    }));
    assert_eq!(input.event(&press, &size), EventResult::Unhandled);
    assert_eq!(input.event(&AnyEvent::Input(Event::Resize(3, 3)), &size), EventResult::Unhandled);
    assert_eq!(input.text.data, "h");
}

#[test]
fn input_shows_its_text() {
    let input = TextInput::with_text(Text::new("typed text"));
    assert_eq!(input.layout(&Size::new(20, 3)), Text::new("typed text").layout(&Size::new(20, 3)));
    let mut ctx = RenderCtx::new(Size::new(6, 2), false).unwrap();
    input.render(&mut ctx).unwrap();
    assert_eq!(screen(&ctx), vec!["typed.", "text.."]);
    let replaced = TextInput::new().text(Text::new("x"));
    assert_eq!(replaced.text.data, "x");
}
