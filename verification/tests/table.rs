use witui::canvas::Canvas;
use witui::geometry::{Point, Size};
use witui::layout::{FlexFit, LayoutError, LayoutSize, RenderError};
use witui::render::RenderCtx;
use witui::widgets::table::{
    bounds_for, column_at, layout_flex, Column, ColumnWidth, ColumnWidthAuto, ColumnWidthValue, Row,
    RowHeight, RowHeightAuto, RowHeightValue, Table, TableLayout, TableRows, TableRowsFn,
};
use witui::widgets::{
    AnyEvent, Event, EventResult, KeyModifiers, MouseButton, MouseEvent, MouseEventKind, Widget,
};
use witui::{util::Scoped, MinMaxFlex};

fn row_text(canvas: &Canvas, y: usize) -> String {
    let width = canvas.get_size().width;
    (0..width)
        .map(|x| canvas.draw_cell(Point::new(x, y)).unwrap().glyph.unwrap_or('.'))
        .collect()
}

fn devices() -> Table<Vec<Column<&'static str>>, (), Vec<Vec<&'static str>>> {
    let width = ColumnWidth::new().auto_mode(ColumnWidthAuto::AllCells);
    Table::new()
        .columns(vec![
            Column::new("DEVICE").width(width),
            Column::new("TYPE").width(width),
            Column::new("STATE").width(width),
            Column::new("CONNECTION").width(width),
        ])
        .data(vec![vec!["wlp8s0", "wifi", "connected", "SUPERROUTER"]])
        .layout(TableLayout::default().column_separator(' '))
}

#[test]
fn column_widths_follow_the_widest_cells() {
    let table = devices();
    assert_eq!(table.column_widths(&Size::new(80, 24)), Ok(vec![6, 4, 9, 11]));
    assert_eq!(table.column_widths(&Size::new(33, 2)), Ok(vec![6, 4, 9, 11]));
}

#[test]
fn table_is_rendered_with_one_space_gaps() {
    let table = devices();
    let mut ctx = RenderCtx::new(Size::new(36, 3), false).unwrap();
    table.render(&mut ctx).unwrap();
    assert_eq!(row_text(ctx.get_canvas(), 0), "DEVICE TYPE STATE.... CONNECTION....");
    assert_eq!(row_text(ctx.get_canvas(), 1), "wlp8s0 wifi connected SUPERROUTER...");
    assert_eq!(row_text(ctx.get_canvas(), 2), "....................................");
    for x in [6, 11, 21] {
        assert_eq!(ctx.get_canvas().draw_cell(Point::new(x, 1)).unwrap().glyph, Some(' '));
    }
}

#[test]
fn a_table_in_a_wide_frame_paints_only_its_columns() {
    let table = devices();
    let mut ctx = RenderCtx::new(Size::new(80, 24), false).unwrap();
    assert_eq!(table.render(&mut ctx), Ok(()));
    let blank = ".".repeat(80 - 33);
    assert_eq!(
        row_text(ctx.get_canvas(), 0),
        format!("DEVICE TYPE STATE.... CONNECTION.{blank}")
    );
    assert_eq!(
        row_text(ctx.get_canvas(), 1),
        format!("wlp8s0 wifi connected SUPERROUTER{blank}")
    );
    for y in 0..24 {
        for x in 0..80 {
            let cell = ctx.get_canvas().draw_cell(Point::new(x, y)).unwrap();
            if x >= 33 || y >= 2 {
                assert_eq!(cell.glyph, None);
            }
        }
    }
    // the columns start at 0, 7, 12 and 22, with one separator left of each but the first
    for y in 0..2 {
        for x in [6, 11, 21] {
            assert_eq!(ctx.get_canvas().draw_cell(Point::new(x, y)).unwrap().glyph, Some(' '));
        }
        for x in [0, 7, 12, 22] {
            assert!(ctx.get_canvas().draw_cell(Point::new(x, y)).unwrap().glyph.is_some());
        }
    }
}

#[test]
fn fixed_columns_make_a_table_of_fixed_width() {
    let widths = [3usize, 5, 2, 7];
    let columns: Vec<Column<&str>> =
        widths.iter().map(|w| Column::new("h").width(ColumnWidth::fixed(*w))).collect();
    let table = Table::new().columns(columns).data(vec![vec!["a", "b", "c", "d"]]);
    let layout = Widget::layout(&table, &Size::new(40, 10)).unwrap();
    assert_eq!(layout.min.width, 3 + 5 + 2 + 7 + 3);
    assert_eq!(layout.max.width, layout.min.width);
    assert_eq!(table.column_widths(&Size::new(40, 10)), Ok(vec![3, 5, 2, 7]));
    assert_eq!(table.column_widths(&Size::new(20, 10)), Ok(vec![3, 5, 2, 7]));
    let one = Table::new()
        .columns(vec![Column::new("h").width(ColumnWidth::new().min_fixed(4).max_fixed(4))])
        .data(vec![vec!["a"]]);
    let layout = Widget::layout(&one, &Size::new(40, 10)).unwrap();
    assert_eq!((layout.min.width, layout.max.width), (4, 4));
}

#[test]
fn columns_that_do_not_fit_are_left_out_or_fail() {
    let columns = || -> Vec<Column<&str>> {
        vec![
            Column::new("a").width(ColumnWidth::fixed(4)),
            Column::new("b").width(ColumnWidth::fixed(4)),
            Column::new("c").width(ColumnWidth::fixed(4)),
        ]
    };
    let data = || vec![vec!["1", "2", "3"]];
    let lenient = Table::new().columns(columns()).data(data());
    assert_eq!(lenient.column_widths(&Size::new(10, 5)), Ok(vec![4, 4]));
    let (layout, inputs) = lenient.layout_table(&Size::new(10, 5)).unwrap();
    assert_eq!(inputs.len(), 2);
    // the separator before the column that was left out stays reserved
    assert_eq!(layout.min.width, 10);
    let strict = Table::new()
        .columns(columns())
        .data(data())
        .layout(TableLayout::default().must_render_fit_all_columns(true));
    assert_eq!(Widget::layout(&strict, &Size::new(10, 5)), Err(LayoutError::InsufficientSpace));
    assert_eq!(strict.column_widths(&Size::new(14, 5)), Ok(vec![4, 4, 4]));
    let mut ctx = RenderCtx::new(Size::new(10, 5), false).unwrap();
    assert_eq!(strict.render(&mut ctx), Err(RenderError::Layout(LayoutError::InsufficientSpace)));
    assert_eq!(row_text(ctx.get_canvas(), 0), "..........");
}

#[test]
fn table_without_columns_takes_no_room() {
    let table = Table::new();
    assert_eq!(
        Widget::layout(&table, &Size::new(9, 9)),
        Ok(LayoutSize::min_max(Size::zero(), Size::zero()))
    );
    assert_eq!(table.column_widths(&Size::new(9, 9)), Ok(vec![]));
    assert!(table.columns_ref().is_none());
    assert!(table.rows_ref().is_none());
    assert!(table.data_ref().is_none());
    assert_eq!(table.row_total(), 0);
    let mut ctx = RenderCtx::new(Size::new(2, 2), false).unwrap();
    assert_eq!(table.render(&mut ctx), Ok(()));
}

#[test]
fn table_height_counts_headings_and_rows() {
    let table = devices();
    let layout = Widget::layout(&table, &Size::new(80, 24)).unwrap();
    assert_eq!(layout.min, Size::new(7, 2));
    assert_eq!(layout.max, Size::new(33, 2));
    assert_eq!(layout.flex, 0);
    assert_eq!(layout.fit, FlexFit::Tight);
    assert_eq!(Widget::layout(&table, &Size::new(80, 1)), Err(LayoutError::InsufficientSpace));
    let bare = devices().layout(TableLayout::default().show_column_headings(false));
    assert_eq!(Widget::layout(&bare, &Size::new(80, 24)).unwrap().min, Size::new(7, 1));
    let mut ctx = RenderCtx::new(Size::new(33, 2), false).unwrap();
    bare.render(&mut ctx).unwrap();
    assert_eq!(row_text(ctx.get_canvas(), 0), "wlp8s0 wifi connected SUPERROUTER");
    assert_eq!(row_text(ctx.get_canvas(), 1), ".................................");
}

#[test]
fn auto_modes_measure_heading_and_cells() {
    let make = |mode: ColumnWidthAuto| {
        Table::new()
            .columns(vec![Column::new("HEADING").width(ColumnWidth::new().auto_mode(mode))])
            .data(vec![vec!["ab"], vec!["abcdefghij"], vec!["abc"]])
    };
    let size = Size::new(40, 3);
    assert_eq!(make(ColumnWidthAuto::Off).column_widths(&size), Ok(vec![1]));
    assert_eq!(make(ColumnWidthAuto::Heading).column_widths(&size), Ok(vec![7]));
    assert_eq!(make(ColumnWidthAuto::AllCells).column_widths(&size), Ok(vec![10]));
    assert_eq!(make(ColumnWidthAuto::AllCellsOrHeading).column_widths(&size), Ok(vec![10]));
    // two rows are visible below the heading
    assert_eq!(make(ColumnWidthAuto::VisibleCells).column_widths(&size), Ok(vec![10]));
    let low = Size::new(40, 2);
    assert_eq!(make(ColumnWidthAuto::VisibleCells).column_widths(&low), Ok(vec![2]));
    assert_eq!(make(ColumnWidthAuto::VisibleCellsOrHeading).column_widths(&low), Ok(vec![7]));
    assert_eq!(make(ColumnWidthAuto::AllCells).column_widths(&low), Ok(vec![10]));
}

#[test]
fn bounds_clamp_the_measured_width() {
    let policy = ColumnWidth::new().min_fixed(3).max_fixed(8);
    assert_eq!(bounds_for(&policy, 5, 20), (3, 8));
    let policy = ColumnWidth::new().min_auto().max_fixed(8);
    assert_eq!(bounds_for(&policy, 5, 20), (8, 8));
    assert_eq!(bounds_for(&policy, 5, 2), (2, 8));
    let policy = ColumnWidth::new().min_heading().max_auto();
    assert_eq!(bounds_for(&policy, 5, 2), (5, 5));
    assert_eq!(bounds_for(&policy, 5, 9), (5, 9));
    let policy = ColumnWidth::new().min_fixed(1).max_heading();
    assert_eq!(bounds_for(&policy, 5, 9), (1, 5));
    let policy = ColumnWidth::new().min(ColumnWidthValue::Fixed(4)).max(ColumnWidthValue::Auto);
    assert_eq!(bounds_for(&policy, 5, 2), (4, 4));
    assert_eq!(ColumnWidth::new().flex_weight(3), ColumnWidth::new().flex(3));
    assert_eq!(ColumnWidth::default(), ColumnWidth::new());
}

#[test]
fn width_is_distributed_after_the_separators() {
    let inputs = vec![
        MinMaxFlex::new(2, 10, 1, FlexFit::Loose),
        MinMaxFlex::new(2, 3, 1, FlexFit::Loose),
        MinMaxFlex::new(1, 1, 0, FlexFit::Loose),
    ];
    // two cells go to the separators; of the five that are free the first
    // column takes three (2.5 rounded up) and the second one, its maximum
    assert_eq!(layout_flex(&Size::new(12, 1), &inputs), Ok(vec![5, 3, 1]));
    assert_eq!(layout_flex(&Size::new(7, 1), &inputs), Ok(vec![2, 2, 1]));
    assert_eq!(layout_flex(&Size::new(6, 1), &inputs), Err(LayoutError::InsufficientSpace));
    assert_eq!(layout_flex(&Size::new(1, 1), &inputs), Err(LayoutError::InsufficientSpace));
    assert_eq!(layout_flex(&Size::new(0, 1), &Vec::new()), Ok(vec![]));
}

#[test]
fn positions_fall_into_columns() {
    let widths = vec![3, 1, 2];
    assert_eq!(column_at(&widths, 0), Some(0));
    assert_eq!(column_at(&widths, 3), Some(0));
    assert_eq!(column_at(&widths, 4), Some(1));
    assert_eq!(column_at(&widths, 5), Some(1));
    assert_eq!(column_at(&widths, 6), Some(2));
    assert_eq!(column_at(&widths, 8), Some(2));
    assert_eq!(column_at(&widths, 9), None);
    assert_eq!(column_at(&Vec::new(), 0), None);
}

fn click(button: MouseButton, column: u16) -> AnyEvent {
    AnyEvent::Input(Event::Mouse(MouseEvent {
        kind: MouseEventKind::Down(button),
        column,
        row: 0,
        modifiers: KeyModifiers::empty(),
    }))
}

#[test]
fn middle_click_toggles_the_width_of_a_column() {
    let mut column = Column::new("head");
    let size = Size::new(10, 2);
    assert_eq!(column.event(&click(MouseButton::Left, 0), &size), EventResult::Unhandled);
    assert_eq!(column.width.max, ColumnWidthValue::Auto);
    assert_eq!(column.event(&click(MouseButton::Middle, 0), &size), EventResult::Done);
    assert_eq!(column.width.max, ColumnWidthValue::Fixed(1));
    assert_eq!(column.event(&click(MouseButton::Middle, 0), &size), EventResult::Done);
    assert_eq!(column.width.max, ColumnWidthValue::Auto);
    let mut heading = Column::new("head").width(ColumnWidth::new().max_heading());
    assert_eq!(heading.event(&click(MouseButton::Middle, 0), &size), EventResult::Done);
    assert_eq!(heading.width.max, ColumnWidthValue::Fixed(1));
}

#[test]
fn table_hands_a_middle_click_to_the_column_under_it() {
    let mut table = devices();
    let size = Size::new(80, 24);
    assert_eq!(table.event(&click(MouseButton::Left, 8), &size), EventResult::Unhandled);
    assert_eq!(table.event(&click(MouseButton::Middle, 8), &size), EventResult::Done);
    let columns = table.columns_ref().unwrap();
    assert_eq!(columns[0].width.max, ColumnWidthValue::Auto);
    assert_eq!(columns[1].width.max, ColumnWidthValue::Fixed(1));
    assert_eq!(columns[2].width.max, ColumnWidthValue::Auto);
    assert_eq!(table.column_widths(&size), Ok(vec![6, 1, 9, 11]));
    // a click right of the last column changes nothing
    assert_eq!(table.event(&click(MouseButton::Middle, 70), &size), EventResult::Done);
    assert_eq!(table.column_widths(&size), Ok(vec![6, 1, 9, 11]));
}

#[test]
fn row_headings_set_the_number_of_rows() {
    let table = devices().rows(vec![Row::new("one"), Row::new("two")]);
    assert_eq!(table.row_total(), 2);
    assert_eq!(devices().row_total(), 1);
    let rows: Vec<Row<&str>> = vec![Row::new("one").height(RowHeight::new().max_fixed(2))];
    assert_eq!(TableRows::len(&rows), 1);
    assert!(matches!(rows.row(0), Some(Scoped::Ref(_))));
    assert!(rows.row(1).is_none());
    let generated = TableRowsFn::generator(3, |idx: usize| {
        if idx < 3 {
            Some(Scoped::Box(Box::new(Row::new("made"))))
        } else {
            None
        }
    });
    assert_eq!(generated.len(), 3);
    assert_eq!(generated.row(2).unwrap().get().heading, "made");
    assert!(generated.row(3).is_none());
    assert_eq!(devices().rows(generated).row_total(), 3);
}

#[test]
fn row_height_policies_are_built_step_by_step() {
    let height = RowHeight::new();
    assert_eq!(height.min, RowHeightValue::Fixed(1));
    assert_eq!(height.max, RowHeightValue::Fixed(1));
    assert_eq!(height.auto_mode, RowHeightAuto::CellsOrHeading);
    assert_eq!(height.flex_weight, 1);
    assert_eq!(height.min_auto().min, RowHeightValue::Auto);
    assert_eq!(height.min_heading().min, RowHeightValue::Heading);
    assert_eq!(height.min_fixed(3).min, RowHeightValue::Fixed(3));
    assert_eq!(height.min(RowHeightValue::Fixed(2)).min, RowHeightValue::Fixed(2));
    assert_eq!(height.max_auto().max, RowHeightValue::Auto);
    assert_eq!(height.max_heading().max, RowHeightValue::Heading);
    assert_eq!(height.max_fixed(3).max, RowHeightValue::Fixed(3));
    assert_eq!(height.max(RowHeightValue::Auto).max, RowHeightValue::Auto);
    assert_eq!(height.auto_mode(RowHeightAuto::Off).auto_mode, RowHeightAuto::Off);
    assert_eq!(height.flex_weight(4).flex_weight, 4);
    assert_eq!(height.flex(5).flex_weight, 5);
    assert_eq!(RowHeight::default(), height);
    assert_eq!(Row::new("r").layout(&Size::new(5, 5)), "r".layout(&Size::new(5, 5)));
}

#[test]
fn parts_of_a_table_can_be_changed_in_place() {
    let mut table = devices().rows(vec![Row::new("r")]);
    table.columns_mut().unwrap()[1].width = ColumnWidth::fixed(2);
    table.data_mut().unwrap()[0][0] = "eth0";
    table.rows_mut().unwrap().push(Row::new("s"));
    assert_eq!(table.column_widths(&Size::new(80, 24)), Ok(vec![4, 2, 9, 11]));
    assert_eq!(table.row_total(), 2);
    assert!(Table::new().columns_mut().is_none());
    assert!(Table::new().rows_mut().is_none());
    assert!(Table::new().data_mut().is_none());
}
