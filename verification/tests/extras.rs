use witui::canvas::Canvas;
use witui::geometry::{Point, Rect, SideOffsets, Size};
use witui::layout::{FlexFit, LayoutError, LayoutSize, MinMax, RenderError};
use witui::render::RenderCtx;
use witui::style::{Attribute, Attributes, Color, Style};
use witui::util::{Immut, Immutable, Scoped, ScopedMut};
use witui::widgets::borderbox::BorderBox;
use witui::widgets::borders::Borders;
use witui::widgets::bordered::Bordered;
use witui::widgets::number::digits_of;
use witui::widgets::styled::apply_style;
use witui::widgets::{Container, Expanded, FillChar, Widget};

fn row_text(canvas: &Canvas, y: usize) -> String {
    let width = canvas.get_size().width;
    (0..width)
        .map(|x| canvas.draw_cell(Point::new(x, y)).unwrap().glyph.unwrap_or('.'))
        .collect()
}

fn screen(ctx: &RenderCtx) -> Vec<String> {
    (0..ctx.canvas_size().height).map(|y| row_text(ctx.get_canvas(), y)).collect()
}

#[test]
fn numbers_are_shown_in_decimal() {
    assert_eq!(digits_of(0), vec!['0']);
    assert_eq!(digits_of(7), vec!['7']);
    assert_eq!(digits_of(1203), vec!['1', '2', '0', '3']);
    assert_eq!(digits_of(usize::MAX).iter().collect::<String>(), usize::MAX.to_string());
    let range = |width: usize| {
        Ok(LayoutSize {
            min: Size::new(1, 1),
            max: Size::new(width, 1),
            flex: 0,
            fit: FlexFit::Tight,
        })
    };
    assert_eq!(12345usize.layout(&Size::new(10, 2)), range(5));
    assert_eq!(12345u32.layout(&Size::new(3, 2)), range(3));
    assert_eq!(0u32.layout(&Size::new(3, 2)), range(1));
    assert_eq!(5usize.layout(&Size::new(0, 2)), Err(LayoutError::InsufficientSpace));
    let mut ctx = RenderCtx::new(Size::new(6, 1), false).unwrap();
    4096usize.render(&mut ctx).unwrap();
    assert_eq!(screen(&ctx), vec!["4096.."]);
    let mut ctx = RenderCtx::new(Size::new(3, 1), false).unwrap();
    4096u32.render(&mut ctx).unwrap();
    assert_eq!(screen(&ctx), vec!["40…"]);
}

#[test]
fn style_shorthands_set_one_thing_each() {
    let style = Style::new().red().on_dark_blue().bold().italic();
    assert_eq!(style.fg, Some(Color::Red));
    assert_eq!(style.bg, Some(Color::DarkBlue));
    assert_eq!(style.attrs, Attributes::only(Attribute::Bold).with(Attribute::Italic));
    assert_eq!(Style::default(), Style::new());
    assert_eq!(Style::new().negative(), Style::new().reverse());
    assert_eq!(Style::new().grey().fg, Some(Color::Grey));
    assert_eq!(Style::new().on_white().bg, Some(Color::White));
    assert_eq!(Style::new().crossed_out().attrs, Attributes::only(Attribute::CrossedOut));
    assert_eq!(
        Style::new().fg(Color::Rgb { r: 1, g: 2, b: 3 }).bg(Color::AnsiValue(7)),
        Style { fg: Some(Color::Rgb { r: 1, g: 2, b: 3 }), bg: Some(Color::AnsiValue(7)), attrs: Attributes::none() }
    );
    let all = [
        Attribute::Reset,
        Attribute::Bold,
        Attribute::Dim,
        Attribute::Italic,
        Attribute::Underlined,
        Attribute::SlowBlink,
        Attribute::RapidBlink,
        Attribute::Reverse,
        Attribute::Hidden,
        Attribute::CrossedOut,
        Attribute::Fraktur,
        Attribute::NoBold,
        Attribute::NormalIntensity,
        Attribute::NoItalic,
        Attribute::NoUnderline,
        Attribute::NoBlink,
        Attribute::NoReverse,
        Attribute::NoHidden,
        Attribute::NotCrossedOut,
        Attribute::Framed,
        Attribute::Encircled,
        Attribute::OverLined,
        Attribute::NotFramedOrEncircled,
        Attribute::NotOverLined,
    ];
    for (i, a) in all.iter().enumerate() {
        assert_eq!(a.bit(), 1 << i);
        for b in all.iter() {
            assert_eq!(Attributes::only(*a).has(*b), a == b);
            assert!(Attributes::only(*a).union(Attributes::only(*b)).has(*a));
        }
    }
    assert!(Attributes::none().is_empty());
    assert!(Attributes::default().is_empty());
    assert!(!Attributes::only(Attribute::Dim).is_empty());
}

#[test]
fn border_box_frames_the_whole_frame() {
    let boxed = BorderBox::preset_lined("hi");
    assert_eq!(boxed.edge_offsets(), SideOffsets::new(1, 1, 1, 1));
    assert_eq!(
        boxed.layout(&Size::new(10, 5)),
        Ok(LayoutSize { min: Size::new(3, 3), max: Size::new(4, 3), flex: 0, fit: FlexFit::Tight })
    );
    let mut ctx = RenderCtx::new(Size::new(6, 4), false).unwrap();
    boxed.render(&mut ctx).unwrap();
    assert_eq!(screen(&ctx), vec!["┌────┐", "│hi..│", "│....│", "└────┘"]);
    let mut ctx = RenderCtx::new(Size::new(3, 3), false).unwrap();
    BorderBox::preset_double('x').render(&mut ctx).unwrap();
    assert_eq!(screen(&ctx), vec!["╔═╗", "║x║", "╚═╝"]);
    let mut ctx = RenderCtx::new(Size::new(3, 3), false).unwrap();
    BorderBox::preset_dashed('x').render(&mut ctx).unwrap();
    assert_eq!(screen(&ctx), vec!["+-+", "|x|", "+-+"]);
    let mut ctx = RenderCtx::new(Size::new(3, 3), false).unwrap();
    BorderBox::preset_simple_dashed('x').render(&mut ctx).unwrap();
    assert_eq!(screen(&ctx), vec!["┌-┐", "|x|", "└-┘"]);
    let mut ctx = RenderCtx::new(Size::new(1, 3), false).unwrap();
    assert_eq!(
        BorderBox::preset_lined('x').render(&mut ctx),
        Err(RenderError::Layout(LayoutError::InsufficientSpace))
    );
    assert_eq!(screen(&ctx), vec![".", ".", "."]);
    let plain = BorderBox::new("ab").left(FillChar::new('>')).bottom(FillChar::new('_'));
    let mut ctx = RenderCtx::new(Size::new(4, 2), false).unwrap();
    plain.render(&mut ctx).unwrap();
    assert_eq!(screen(&ctx), vec![">ab.", ".___"]);
}

#[test]
fn bordered_takes_a_style_for_its_presets() {
    let style = Style::new().green();
    let mut ctx = RenderCtx::new(Size::new(4, 3), false).unwrap();
    Bordered::child("ab").borders_line(style).render(&mut ctx).unwrap();
    assert_eq!(screen(&ctx), vec!["┌──┐", "│ab│", "└──┘"]);
    assert_eq!(ctx.get_canvas().draw_cell(Point::new(0, 0)).unwrap().fg, Some(Color::Green));
    assert_eq!(ctx.get_canvas().draw_cell(Point::new(1, 1)).unwrap().fg, None);
    let mut ctx = RenderCtx::new(Size::new(3, 3), false).unwrap();
    Bordered::child('x').borders_double(style).render(&mut ctx).unwrap();
    assert_eq!(screen(&ctx), vec!["╔═╗", "║x║", "╚═╝"]);
    let mut ctx = RenderCtx::new(Size::new(3, 3), false).unwrap();
    Bordered::child('x').borders_cross(style).render(&mut ctx).unwrap();
    assert_eq!(screen(&ctx), vec!["+-+", "|x|", "+-+"]);
    let mut ctx = RenderCtx::new(Size::new(3, 3), false).unwrap();
    Bordered::child('x').borders_dash(style).render(&mut ctx).unwrap();
    assert_eq!(screen(&ctx), vec!["┌-┐", "|x|", "└-┘"]);
    let one: Bordered<FillChar, &str> = Bordered::child("ab").top(FillChar::new('~'));
    assert_eq!(one.edge_offsets(), SideOffsets::new(1, 0, 0, 0));
    let one = one
        .right(FillChar::new('|'))
        .top_right(FillChar::new('+'))
        .top_left(FillChar::new('*'))
        .bottom_left(FillChar::new('*'))
        .bottom_right(FillChar::new('*'));
    let mut ctx = RenderCtx::new(Size::new(3, 2), false).unwrap();
    one.render(&mut ctx).unwrap();
    assert_eq!(screen(&ctx), vec!["~~+", "ab|"]);
}

#[test]
fn small_helpers_hold_their_values() {
    let bounds = MinMax::new(2, 9);
    assert_eq!((bounds.min, bounds.max), (2, 9));
    let zero: MinMax<usize> = MinMax::default();
    assert_eq!((zero.min, zero.max), (0, 0));
    let wrapped = Immut::new(5);
    assert_eq!(*wrapped.get(), 5);
    struct Marker(u8);
    impl Immutable for Marker {}
    assert_eq!(Marker(3).immut().get().0, 3);
    let value = 7;
    assert_eq!(*Scoped::Ref(&value).get(), 7);
    assert_eq!(*Scoped::Box(Box::new(8)).get(), 8);
    assert_eq!(*Scoped::Ref(&value), 7);
    assert_eq!(*wrapped, 5);
    let mut changing = 9;
    assert_eq!(*ScopedMut::Ref(&mut changing), 9);
    assert_eq!(*ScopedMut::Box(Box::new(10)).get(), 10);
}

#[test]
fn container_gives_each_child_its_largest_size() {
    let container = Container::new().child(Expanded::child("ab")).child(Expanded::child("cde"));
    // whatever the weight of a child, it gets no share of what is left over
    let layout = container.layout(&Size::new(10, 2)).unwrap();
    assert_eq!(layout.min, Size::new(10, 2));
    let plain = Container::new().child("ab").child("cde").child("f");
    assert_eq!(
        plain.layout(&Size::new(10, 2)),
        Ok(LayoutSize { min: Size::new(6, 1), max: Size::new(6, 1), flex: 0, fit: FlexFit::Loose })
    );
    assert_eq!(
        plain.child_frames(&Rect::from_size(Size::new(10, 2))),
        Ok(vec![
            Rect::new(Point::new(0, 0), Size::new(2, 2)),
            Rect::new(Point::new(2, 0), Size::new(3, 2)),
            Rect::new(Point::new(5, 0), Size::new(1, 2)),
        ])
    );
    let mut ctx = RenderCtx::new(Size::new(7, 1), false).unwrap();
    plain.render(&mut ctx).unwrap();
    assert_eq!(screen(&ctx), vec!["abcdef."]);
    let strict = Container::new().child("ab").child("cde").must_fit_all_children(true);
    assert_eq!(strict.layout(&Size::new(2, 1)), Err(LayoutError::InsufficientSpace));
    let mut ctx = RenderCtx::new(Size::new(2, 1), false).unwrap();
    assert_eq!(strict.render(&mut ctx), Err(RenderError::Layout(LayoutError::InsufficientSpace)));
    assert_eq!(screen(&ctx), vec![".."]);
}

#[test]
fn overlays_stack_on_the_top_border() {
    let widget = Borders::with_child("ab").top_overlay(FillChar::new('-')).top_overlay(FillChar::new('='));
    assert_eq!(widget.top.as_ref().unwrap().children.len(), 2);
    let mut ctx = RenderCtx::new(Size::new(2, 2), false).unwrap();
    widget.render(&mut ctx).unwrap();
    assert_eq!(screen(&ctx), vec!["==", "ab"]);
    let replaced = Container::new().child("x").children(vec!["ab", "cd"]);
    let mut ctx = RenderCtx::new(Size::new(5, 1), false).unwrap();
    replaced.render(&mut ctx).unwrap();
    assert_eq!(screen(&ctx), vec!["abcd."]);
}

#[test]
fn a_style_is_applied_to_every_cell_of_the_frame() {
    let mut ctx = RenderCtx::new(Size::new(3, 2), false).unwrap();
    ctx.renderer().write_char('a');
    ctx.renderer().set_frame(Rect::new(Point::new(0, 0), Size::new(2, 1)));
    apply_style(&Style::new().red().bold(), &mut ctx);
    let cell = |ctx: &RenderCtx, x: usize, y: usize| ctx.get_canvas().draw_cell(Point::new(x, y)).unwrap();
    for x in 0..2 {
        assert_eq!(cell(&ctx, x, 0).fg, Some(Color::Red));
        assert_eq!(cell(&ctx, x, 0).bg, None);
        assert_eq!(cell(&ctx, x, 0).attrs, Attributes::only(Attribute::Bold));
    }
    assert_eq!(cell(&ctx, 0, 0).glyph, Some('a'));
    assert_eq!(cell(&ctx, 1, 0).glyph, None);
    // outside the frame nothing changes
    assert_eq!(cell(&ctx, 2, 0).fg, None);
    assert_eq!(cell(&ctx, 0, 1).attrs, Attributes::none());
    // a second style adds its attributes and replaces only the colours it sets
    apply_style(&Style::new().on_blue().italic(), &mut ctx);
    assert_eq!(cell(&ctx, 1, 0).fg, Some(Color::Red));
    assert_eq!(cell(&ctx, 1, 0).bg, Some(Color::Blue));
    assert_eq!(cell(&ctx, 1, 0).attrs, Attributes::only(Attribute::Bold).with(Attribute::Italic));
    // the empty style changes nothing
    let before = cell(&ctx, 0, 0);
    apply_style(&Style::new(), &mut ctx);
    assert_eq!(cell(&ctx, 0, 0), before);
}
