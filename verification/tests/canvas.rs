use witui::canvas::{Canvas, Cell, CellChange, Instruction};
use witui::geometry::{Point, Rect, Size};
use witui::style::{Attribute, Attributes, Color};

fn row_text(canvas: &Canvas, y: usize) -> String {
    let width = canvas.get_size().width;
    (0..width)
        .map(|x| canvas.draw_cell(Point::new(x, y)).unwrap().glyph.unwrap_or('.'))
        .collect()
}

#[test]
fn new_canvas_is_blank() {
    let canvas = Canvas::new(Size::new(3, 2)).unwrap();
    assert_eq!(canvas.get_size(), Size::new(3, 2));
    assert_eq!(canvas.frame(), Rect::from_size(Size::new(3, 2)));
    for y in 0..2 {
        for x in 0..3 {
            assert_eq!(canvas.draw_cell(Point::new(x, y)), Some(Cell::default()));
            assert_eq!(canvas.active_cell(Point::new(x, y)), Some(Cell::default()));
        }
    }
    assert_eq!(canvas.draw_cell(Point::new(3, 0)), None);
    assert_eq!(canvas.draw_cell(Point::new(0, 2)), None);
    assert!(!canvas.is_forced());
}

#[test]
fn zero_area_canvas_is_rejected() {
    assert!(Canvas::new(Size::new(0, 5)).is_none());
    assert!(Canvas::new(Size::new(5, 0)).is_none());
    assert!(Canvas::new(Size::new(usize::MAX, 2)).is_none());
}

#[test]
fn write_is_clipped_to_the_grid() {
    let mut canvas = Canvas::new(Size::new(5, 2)).unwrap();
    canvas.write(&Point::new(3, 1), "abcdef");
    assert_eq!(row_text(&canvas, 0), ".....");
    assert_eq!(row_text(&canvas, 1), "...ab");
    canvas.write(&Point::new(0, 2), "zz");
    canvas.write(&Point::new(5, 0), "zz");
    assert_eq!(row_text(&canvas, 0), ".....");
    assert_eq!(row_text(&canvas, 1), "...ab");
    canvas.write_prefix(&Point::new(0, 0), "hello", 2);
    assert_eq!(row_text(&canvas, 0), "he...");
    canvas.write_char(&Point::new(4, 0), '!');
    assert_eq!(row_text(&canvas, 0), "he..!");
}

#[test]
fn write_keeps_the_style_of_a_cell() {
    let mut canvas = Canvas::new(Size::new(2, 1)).unwrap();
    canvas.fill_background(&Rect::from_size(Size::new(2, 1)), &Color::Blue);
    canvas.write(&Point::new(0, 0), "x");
    let cell = canvas.draw_cell(Point::new(0, 0)).unwrap();
    assert_eq!(cell.glyph, Some('x'));
    assert_eq!(cell.bg, Some(Color::Blue));
}

#[test]
fn fills_touch_only_the_rectangle() {
    let mut canvas = Canvas::new(Size::new(4, 3)).unwrap();
    let rect = Rect::new(Point::new(1, 1), Size::new(2, 5));
    canvas.fill_background(&rect, &Color::Red);
    canvas.fill_foreground(&rect, &Color::Green);
    canvas.fill_glyph(&rect, '#');
    for y in 0..3 {
        for x in 0..4 {
            let cell = canvas.draw_cell(Point::new(x, y)).unwrap();
            if (1..3).contains(&x) && y >= 1 {
                assert_eq!(cell.bg, Some(Color::Red));
                assert_eq!(cell.fg, Some(Color::Green));
                assert_eq!(cell.glyph, Some('#'));
            } else {
                assert_eq!(cell, Cell::default());
            }
        }
    }
}

#[test]
fn attributes_merge_overwrite_and_clear() {
    let mut canvas = Canvas::new(Size::new(2, 1)).unwrap();
    let all = Rect::from_size(Size::new(2, 1));
    let first = Rect::from_size(Size::new(1, 1));
    canvas.merge_attributes(&all, Attributes::only(Attribute::Bold));
    canvas.merge_attributes(&first, Attributes::only(Attribute::Italic));
    let both = Attributes::only(Attribute::Bold).with(Attribute::Italic);
    assert_eq!(canvas.draw_cell(Point::new(0, 0)).unwrap().attrs, both);
    assert_eq!(canvas.draw_cell(Point::new(1, 0)).unwrap().attrs, Attributes::only(Attribute::Bold));
    canvas.overwrite_attributes(&first, Attributes::only(Attribute::Dim));
    assert_eq!(canvas.draw_cell(Point::new(0, 0)).unwrap().attrs, Attributes::only(Attribute::Dim));
    canvas.clear_attributes(&all);
    assert_eq!(canvas.draw_cell(Point::new(0, 0)).unwrap().attrs, Attributes::none());
    assert_eq!(canvas.draw_cell(Point::new(1, 0)).unwrap().attrs, Attributes::none());
    canvas.apply(&all, CellChange::MergeAttributes(both));
    assert!(canvas.draw_cell(Point::new(1, 0)).unwrap().attrs.has(Attribute::Italic));
    assert!(!canvas.draw_cell(Point::new(1, 0)).unwrap().attrs.has(Attribute::Dim));
}

#[test]
fn render_emits_only_what_changed() {
    let mut canvas = Canvas::new(Size::new(3, 2)).unwrap();
    canvas.write(&Point::new(1, 1), "ab");
    let ops = canvas.render();
    assert_eq!(
        ops,
        vec![
            Instruction::MoveCursor { x: 1, y: 1 },
            Instruction::Print('a'),
            Instruction::Print('b'),
        ]
    );
    assert_eq!(canvas.active_cell(Point::new(1, 1)).unwrap().glyph, Some('a'));
    assert_eq!(canvas.draw_cell(Point::new(1, 1)), Some(Cell::default()));
}

#[test]
fn render_switches_each_style_axis_once() {
    let mut canvas = Canvas::new(Size::new(3, 1)).unwrap();
    let all = Rect::from_size(Size::new(3, 1));
    canvas.fill_background(&all, &Color::Blue);
    canvas.fill_foreground(&Rect::new(Point::new(1, 0), Size::new(2, 1)), &Color::Red);
    canvas.merge_attributes(&Rect::new(Point::new(2, 0), Size::new(1, 1)), Attributes::only(Attribute::Bold));
    canvas.write(&Point::new(0, 0), "xyz");
    let ops = canvas.render();
    assert_eq!(
        ops,
        vec![
            Instruction::SetBackground(Color::Blue),
            Instruction::Print('x'),
            Instruction::SetForeground(Color::Red),
            Instruction::Print('y'),
            Instruction::SetAttributes { attributes: Attributes::only(Attribute::Bold), reset: false },
            Instruction::Print('z'),
        ]
    );
}

#[test]
fn leaving_attributes_resets_the_colours() {
    let mut canvas = Canvas::new(Size::new(2, 1)).unwrap();
    let all = Rect::from_size(Size::new(2, 1));
    canvas.fill_background(&all, &Color::Blue);
    canvas.merge_attributes(&Rect::from_size(Size::new(1, 1)), Attributes::only(Attribute::Bold));
    let ops = canvas.render();
    assert_eq!(
        ops,
        vec![
            Instruction::SetAttributes { attributes: Attributes::only(Attribute::Bold), reset: false },
            Instruction::SetBackground(Color::Blue),
            Instruction::Print(' '),
            Instruction::SetAttributes { attributes: Attributes::none(), reset: true },
            Instruction::SetBackground(Color::Blue),
            Instruction::Print(' '),
        ]
    );
}

#[test]
fn second_render_of_a_blank_frame_is_silent() {
    let mut canvas = Canvas::new(Size::new(4, 3)).unwrap();
    assert_eq!(canvas.render(), Vec::<Instruction>::new());
    assert_eq!(canvas.render(), Vec::<Instruction>::new());
}

#[test]
fn render_of_an_unchanged_frame_is_silent() {
    let mut canvas = Canvas::new(Size::new(4, 3)).unwrap();
    canvas.write(&Point::new(0, 0), "same");
    assert_eq!(canvas.render().len(), 4);
    canvas.write(&Point::new(0, 0), "same");
    assert_eq!(canvas.render(), Vec::<Instruction>::new());
}

#[test]
fn render_after_painting_blanks_what_is_no_longer_desired() {
    let mut canvas = Canvas::new(Size::new(2, 1)).unwrap();
    canvas.write(&Point::new(0, 0), "ab");
    canvas.render();
    // nothing is written before the second render: the desired cells are blank
    // again and the terminal still shows the text
    assert_eq!(canvas.render(), vec![Instruction::Print(' '), Instruction::Print(' ')]);
    assert_eq!(canvas.render(), Vec::<Instruction>::new());
}

#[test]
fn resize_forces_a_full_repaint() {
    let mut canvas = Canvas::new(Size::new(2, 2)).unwrap();
    canvas.write(&Point::new(0, 0), "ab");
    canvas.render();
    assert!(canvas.resize(Size::new(3, 2)));
    assert!(canvas.is_forced());
    assert_eq!(canvas.get_size(), Size::new(3, 2));
    canvas.write(&Point::new(1, 0), "x");
    let ops = canvas.render();
    let printed: Vec<char> = ops
        .iter()
        .filter_map(|op| match op {
            Instruction::Print(c) => Some(*c),
            _ => None,
        })
        .collect();
    assert_eq!(printed, vec![' ', 'x', ' ', ' ', ' ', ' ']);
    assert_eq!(ops[3], Instruction::MoveCursor { x: 0, y: 1 });
    assert!(!canvas.is_forced());
    assert_eq!(canvas.render(), vec![Instruction::MoveCursor { x: 1, y: 0 }, Instruction::Print(' ')]);
}

#[test]
fn resize_to_the_same_size_repaints_every_cell() {
    let mut canvas = Canvas::new(Size::new(2, 1)).unwrap();
    assert!(canvas.resize(Size::new(2, 1)));
    assert_eq!(canvas.render(), vec![Instruction::Print(' '), Instruction::Print(' ')]);
}

#[test]
fn resize_rejects_zero_area() {
    let mut canvas = Canvas::new(Size::new(2, 2)).unwrap();
    canvas.write(&Point::new(0, 0), "ab");
    assert!(!canvas.resize(Size::new(0, 7)));
    assert_eq!(canvas.get_size(), Size::new(2, 2));
    assert_eq!(canvas.draw_cell(Point::new(0, 0)).unwrap().glyph, Some('a'));
    assert!(!canvas.is_forced());
}

#[test]
fn forced_render_repaints_unchanged_cells() {
    let mut canvas = Canvas::new(Size::new(2, 1)).unwrap();
    canvas.force_render_once();
    assert_eq!(canvas.render(), vec![Instruction::Print(' '), Instruction::Print(' ')]);
    assert_eq!(canvas.render(), Vec::<Instruction>::new());
}
