//! A table of widgets: headed columns whose widths follow a policy each.

pub mod column;
pub mod data;
pub mod row;

pub use column::{Column, ColumnWidth, ColumnWidthAuto, ColumnWidthValue, TableColumn, TableColumns};
pub use data::TableData;
pub use row::{Row, RowHeight, RowHeightAuto, RowHeightValue, TableRow, TableRows, TableRowsFn};

use vstd::prelude::*;
use crate::flex::{compute_flex_layout, flex_size, size_upto, sum_min, sum_sizes, MinMaxFlex};
use crate::widgets::linear::lemma_size_upto_monotonic;
use crate::geometry::{
    add_or_max, clamp_usize, max_int, max_usize, min_int, min_usize, sub_or_zero, Point, Rect, Size,
};
use crate::layout::{FlexFit, LayoutError, LayoutResult, LayoutSize, RenderError, RenderResult};
use crate::render::{
    covers_any, lemma_painted_where_placed, lemma_painted_within_plan, RenderCtx,
};
use crate::widgets::{AnyEvent, Capability, Event, EventResult, MouseButton, MouseEventKind, Widget};

verus! {

/// How a table as a whole is laid out.
#[derive(Debug, Clone, Copy, PartialEq, Eq, Structural)]
pub struct TableLayout {
    /// Whether the headings of the columns are shown above the cells.
    pub show_column_headings: bool,
    /// The character between two columns.
    pub column_separator: char,
    /// Whether a column or cell without enough space fails the whole table.
    /// Where it does not, what does not fit is left out.
    pub must_render_fit_all_columns: bool,
}

impl Default for TableLayout {
    /// Headings shown, a space between columns, what does not fit left out.
    fn default() -> (r: Self)
        ensures
            r == (TableLayout {
                show_column_headings: true,
                column_separator: ' ',
                must_render_fit_all_columns: false,
            }),
    {
        TableLayout {
            show_column_headings: true,
            column_separator: ' ',
            must_render_fit_all_columns: false,
        }
    }
}

impl TableLayout {
    pub fn show_column_headings(self, show_column_headings: bool) -> (r: Self)
        ensures
            r == (TableLayout { show_column_headings, ..self }),
    {
        TableLayout {
            show_column_headings,
            column_separator: self.column_separator,
            must_render_fit_all_columns: self.must_render_fit_all_columns,
        }
    }

    pub fn column_separator(self, column_separator: char) -> (r: Self)
        ensures
            r == (TableLayout { column_separator, ..self }),
    {
        TableLayout {
            show_column_headings: self.show_column_headings,
            column_separator,
            must_render_fit_all_columns: self.must_render_fit_all_columns,
        }
    }

    pub fn must_render_fit_all_columns(self, must_render_fit_all_columns: bool) -> (r: Self)
        ensures
            r == (TableLayout { must_render_fit_all_columns, ..self }),
    {
        TableLayout {
            show_column_headings: self.show_column_headings,
            column_separator: self.column_separator,
            must_render_fit_all_columns,
        }
    }
}

/// What the scan of the cells of a column has found after some rows.
#[derive(Debug, Clone, Copy, PartialEq, Eq, Structural)]
pub struct CellScan {
    /// Height that the rows not yet scanned may still take.
    pub height: usize,
    /// Largest maximum width among the cells scanned.
    pub widest: usize,
    /// The scan has ended: no height is left for further visible rows.
    pub done: bool,
}

/// The scan of the cells of column `col` after the first `k` rows. Each cell
/// is offered `width` columns and the height that is left. With
/// `visible_only` a row takes the minimum height of its cell off what is
/// left, a row without a cell or whose cell has not enough space takes one
/// row, and the scan ends when no height is left. A cell without enough space
/// fails the scan if everything must fit and is passed over else.
pub open spec fn scan_cells<Data: TableData>(
    data: Data,
    col: usize,
    width: usize,
    height: usize,
    visible_only: bool,
    must_fit: bool,
    k: int,
) -> Result<CellScan, LayoutError>
    decreases k,
{
    if k <= 0 {
        Ok(CellScan { height, widest: 0, done: false })
    } else {
        match scan_cells(data, col, width, height, visible_only, must_fit, k - 1) {
            Err(e) => Err(e),
            Ok(before) => if before.done || (visible_only && before.height == 0) {
                Ok(CellScan { done: true, ..before })
            } else {
                let one_less = if visible_only {
                    max_int(before.height - 1, 0) as usize
                } else {
                    before.height
                };
                match data.cell_spec((k - 1) as usize, col) {
                    None => Ok(CellScan { height: one_less, ..before }),
                    Some(cell) => match cell.layout_spec(Size { width, height: before.height }) {
                        Ok(layout) => Ok(
                            CellScan {
                                height: if visible_only {
                                    max_int(before.height - layout.min.height, 0) as usize
                                } else {
                                    before.height
                                },
                                widest: max_int(
                                    before.widest as int,
                                    layout.max.width as int,
                                ) as usize,
                                done: false,
                            },
                        ),
                        Err(LayoutError::InsufficientSpace) => if must_fit {
                            Err(LayoutError::InsufficientSpace)
                        } else {
                            Ok(CellScan { height: one_less, ..before })
                        },
                        Err(e) => Err(e),
                    },
                }
            },
        }
    }
}

/// The width of the widest cell of column `col`: nothing without data, else
/// what the scan of all `rows` rows finds. One row of the height that is
/// available is set aside for the headings where they are shown.
pub open spec fn cells_width<Data: TableData>(
    data: Option<Data>,
    rows: usize,
    col: usize,
    available: Size,
    visible_only: bool,
    settings: TableLayout,
) -> Result<usize, LayoutError> {
    match data {
        None => Ok(0),
        Some(data) => {
            let height = if settings.show_column_headings {
                max_int(available.height - 1, 0) as usize
            } else {
                available.height
            };
            match scan_cells(
                data,
                col,
                available.width,
                height,
                visible_only,
                settings.must_render_fit_all_columns,
                rows as int,
            ) {
                Ok(found) => Ok(found.widest),
                Err(e) => Err(e),
            }
        },
    }
}

/// The measured width of a column whose heading is `heading` columns wide.
pub open spec fn auto_width(
    mode: ColumnWidthAuto,
    heading: usize,
    all_cells: Result<usize, LayoutError>,
    visible_cells: Result<usize, LayoutError>,
) -> Result<usize, LayoutError> {
    match mode {
        ColumnWidthAuto::Off => Ok(0),
        ColumnWidthAuto::Heading => Ok(heading),
        ColumnWidthAuto::AllCells => all_cells,
        ColumnWidthAuto::VisibleCells => visible_cells,
        ColumnWidthAuto::AllCellsOrHeading => match all_cells {
            Ok(cells) => Ok(max_int(cells as int, heading as int) as usize),
            Err(e) => Err(e),
        },
        ColumnWidthAuto::VisibleCellsOrHeading => match visible_cells {
            Ok(cells) => Ok(max_int(cells as int, heading as int) as usize),
            Err(e) => Err(e),
        },
    }
}

/// The measured width `auto` brought between the bounds of `policy`: first
/// below the upper bound, then above the lower one.
pub open spec fn clamped_auto(policy: ColumnWidth, heading: usize, auto: usize) -> usize {
    let below = match policy.max {
        ColumnWidthValue::Fixed(max) => min_int(auto as int, max as int),
        ColumnWidthValue::Auto => auto as int,
        ColumnWidthValue::Heading => min_int(auto as int, heading as int),
    };
    (match policy.min {
        ColumnWidthValue::Fixed(min) => max_int(below, min as int),
        ColumnWidthValue::Auto => below,
        ColumnWidthValue::Heading => max_int(below, heading as int),
    }) as usize
}

/// What a bound of a width policy comes to.
pub open spec fn bound_width(bound: ColumnWidthValue, heading: usize, auto: usize) -> usize {
    match bound {
        ColumnWidthValue::Fixed(fixed) => fixed,
        ColumnWidthValue::Auto => auto,
        ColumnWidthValue::Heading => heading,
    }
}

/// The least and the greatest width of a column with the given policy,
/// heading width and measured width.
pub open spec fn column_bounds(policy: ColumnWidth, heading: usize, auto: usize) -> (usize, usize) {
    let auto = clamped_auto(policy, heading, auto);
    (bound_width(policy.min, heading, auto), bound_width(policy.max, heading, auto))
}

/// See [`column_bounds`].
pub fn bounds_for(policy: &ColumnWidth, heading: usize, auto: usize) -> (r: (usize, usize))
    ensures
        r == column_bounds(*policy, heading, auto),
{
    let below: usize = match policy.max {
        ColumnWidthValue::Fixed(max) => min_usize(auto, max),
        ColumnWidthValue::Auto => auto,
        ColumnWidthValue::Heading => min_usize(auto, heading),
    };
    let auto: usize = match policy.min {
        ColumnWidthValue::Fixed(min) => max_usize(below, min),
        ColumnWidthValue::Auto => below,
        ColumnWidthValue::Heading => max_usize(below, heading),
    };
    let min: usize = match policy.min {
        ColumnWidthValue::Fixed(fixed) => fixed,
        ColumnWidthValue::Auto => auto,
        ColumnWidthValue::Heading => heading,
    };
    let max: usize = match policy.max {
        ColumnWidthValue::Fixed(fixed) => fixed,
        ColumnWidthValue::Auto => auto,
        ColumnWidthValue::Heading => heading,
    };
    (min, max)
}

/// Once the scan of a column has failed, it stays failed.
pub proof fn lemma_scan_error_stays<Data: TableData>(
    data: Data,
    col: usize,
    width: usize,
    height: usize,
    visible_only: bool,
    must_fit: bool,
    j: int,
    k: int,
)
    requires
        0 <= j <= k,
        scan_cells(data, col, width, height, visible_only, must_fit, j) is Err,
    ensures
        scan_cells(data, col, width, height, visible_only, must_fit, k) == scan_cells(
            data,
            col,
            width,
            height,
            visible_only,
            must_fit,
            j,
        ),
    decreases k,
{
    if j < k {
        lemma_scan_error_stays(data, col, width, height, visible_only, must_fit, j, k - 1);
    }
}

/// Once the scan of a column has ended, later rows change nothing.
pub proof fn lemma_scan_done_stays<Data: TableData>(
    data: Data,
    col: usize,
    width: usize,
    height: usize,
    visible_only: bool,
    must_fit: bool,
    j: int,
    k: int,
)
    requires
        0 <= j <= k,
        scan_cells(data, col, width, height, visible_only, must_fit, j) matches Ok(found) && (
        found.done || (visible_only && found.height == 0)),
    ensures
        scan_cells(data, col, width, height, visible_only, must_fit, k) matches Ok(found)
            && scan_cells(data, col, width, height, visible_only, must_fit, j) matches Ok(before)
            && found.widest == before.widest && (found.done || (visible_only && found.height == 0)),
    decreases k,
{
    if j < k {
        lemma_scan_done_stays(data, col, width, height, visible_only, must_fit, j, k - 1);
    }
}

/// The value behind an optional reference.
pub open spec fn owned<T>(value: Option<&T>) -> Option<T> {
    match value {
        Some(value) => Some(*value),
        None => None,
    }
}

/// The width of the widest cell of a column. See [`cells_width`].
pub fn measure_cells<Data: TableData>(
    data: Option<&Data>,
    rows: usize,
    col: usize,
    avail_size: &Size,
    visible_only: bool,
    settings: &TableLayout,
) -> (r: Result<usize, LayoutError>)
    ensures
        r == cells_width(owned(data), rows,
            col,
            *avail_size,
            visible_only,
            *settings,
        ),
{
    let cells = match data {
        None => {
            return Ok(0);
        },
        Some(cells) => cells,
    };
    let height0: usize = if settings.show_column_headings {
        sub_or_zero(avail_size.height, 1)
    } else {
        avail_size.height
    };
    let must_fit = settings.must_render_fit_all_columns;
    let width: usize = avail_size.width;
    let mut height: usize = height0;
    let mut widest: usize = 0;
    let mut row: usize = 0;
    while row < rows
        invariant
            0 <= row <= rows,
            data == Some(cells),
            height0 == if settings.show_column_headings {
                max_int(avail_size.height - 1, 0) as usize
            } else {
                avail_size.height
            },
            must_fit == settings.must_render_fit_all_columns,
            width == avail_size.width,
            scan_cells(*cells, col, width, height0, visible_only, must_fit, row as int) == Ok::<
                CellScan,
                LayoutError,
            >(CellScan { height, widest, done: false }),
        decreases rows - row,
    {
        if visible_only && height == 0 {
            proof {
                lemma_scan_done_stays(
                    *cells,
                    col,
                    width,
                    height0,
                    visible_only,
                    must_fit,
                    row as int,
                    rows as int,
                );
            }
            return Ok(widest);
        }
        match cells.cell(row, col) {
            None => {
                if visible_only {
                    height = sub_or_zero(height, 1);
                }
            },
            Some(cell) => match cell.layout(&Size::new(width, height)) {
                Ok(layout) => {
                    if visible_only {
                        height = sub_or_zero(height, layout.min.height);
                    }
                    widest = max_usize(widest, layout.max.width);
                },
                Err(LayoutError::InsufficientSpace) => {
                    if must_fit {
                        proof {
                            lemma_scan_error_stays(
                                *cells,
                                col,
                                width,
                                height0,
                                visible_only,
                                must_fit,
                                row + 1,
                                rows as int,
                            );
                        }
                        return Err(LayoutError::InsufficientSpace);
                    }
                    if visible_only {
                        height = sub_or_zero(height, 1);
                    }
                },
                Err(e) => {
                    proof {
                        lemma_scan_error_stays(
                            *cells,
                            col,
                            width,
                            height0,
                            visible_only,
                            must_fit,
                            row + 1,
                            rows as int,
                        );
                    }
                    return Err(e);
                },
            },
        }
        row = row + 1;
    }
    Ok(widest)
}

/// What the layout of a table has found after some of its columns.
#[derive(Debug, Clone, Copy, PartialEq, Eq, Structural)]
pub struct TableState {
    /// A column had not enough space: the columns after it are left out.
    pub stopped: bool,
    /// What is still available to the next column.
    pub available: Size,
    /// Sum of the least widths of the columns, separators included.
    pub width_min: usize,
    /// Sum of the greatest widths of the columns, separators included.
    pub width_max: usize,
    /// Largest minimum height of a heading.
    pub headings_min: usize,
    /// Smallest maximum height of a heading, starting from none.
    pub headings_max: usize,
}

/// What becomes of the layout when something has not enough space: the
/// layout fails if everything must fit, and else stops with what it has.
pub open spec fn give_up(settings: TableLayout, state: TableState) -> Result<
    (TableState, Option<MinMaxFlex>),
    LayoutError,
> {
    if settings.must_render_fit_all_columns {
        Err(LayoutError::InsufficientSpace)
    } else {
        Ok((TableState { stopped: true, ..state }, None))
    }
}

/// With how many rows the table reckons: the number of row headings where
/// it has any, else the number of rows of its data.
pub open spec fn row_count<Data: TableData>(rows: Option<usize>, data: Option<Data>) -> usize {
    match rows {
        Some(rows) => rows,
        None => match data {
            Some(data) => data.rows_spec(),
            None => 0,
        },
    }
}

/// The layout after one more column, the one at position `index`, and what
/// that column asks of the distribution of width if it is laid out.
///
/// From the second column on, one column of width goes to the separator. The
/// heading is laid out in what is left, the width of the column is measured
/// as its policy says and brought between its bounds, and the least width
/// of the column is taken off what is available.
pub open spec fn column_step<Col: TableColumn, Data: TableData>(
    column: Col,
    index: int,
    data: Option<Data>,
    rows: usize,
    settings: TableLayout,
    before: TableState,
) -> Result<(TableState, Option<MinMaxFlex>), LayoutError> {
    let separator = if index > 0 {
        1usize
    } else {
        0usize
    };
    if !before.available.fits(Size { width: separator, height: 1 }) {
        give_up(settings, before)
    } else {
        let available = Size {
            width: (before.available.width - separator) as usize,
            height: before.available.height,
        };
        let separated = TableState {
            available,
            width_min: if before.width_min + separator <= usize::MAX {
                (before.width_min + separator) as usize
            } else {
                before.width_min
            },
            width_max: if before.width_max + separator <= usize::MAX {
                (before.width_max + separator) as usize
            } else {
                before.width_max
            },
            ..before
        };
        match column.layout_spec(available) {
            Err(LayoutError::InsufficientSpace) => give_up(settings, separated),
            Err(e) => Err(e),
            Ok(heading) => {
                let policy = column.width_spec();
                let measured = auto_width(
                    policy.auto_mode,
                    heading.max.width,
                    cells_width(data, rows, index as usize, available, false, settings),
                    cells_width(data, rows, index as usize, available, true, settings),
                );
                match measured {
                    Err(e) => Err(e),
                    Ok(auto) => {
                        let (least, greatest) = column_bounds(policy, heading.max.width, auto);
                        let height_min = if settings.show_column_headings {
                            heading.min.height
                        } else {
                            0
                        };
                        let height_max = if settings.show_column_headings {
                            heading.max.height
                        } else {
                            0
                        };
                        if !available.fits(Size { width: least, height: height_min }) {
                            give_up(settings, separated)
                        } else {
                            Ok(
                                (
                                    TableState {
                                        stopped: false,
                                        available: Size {
                                            width: (available.width - least) as usize,
                                            height: available.height,
                                        },
                                        width_min: clamp_usize(separated.width_min + least),
                                        width_max: clamp_usize(separated.width_max + greatest),
                                        headings_min: max_int(
                                            before.headings_min as int,
                                            height_min as int,
                                        ) as usize,
                                        headings_max: min_int(
                                            before.headings_max as int,
                                            height_max as int,
                                        ) as usize,
                                    },
                                    Some(
                                        MinMaxFlex {
                                            min: least,
                                            max: greatest,
                                            flex: policy.flex_weight,
                                            fit: FlexFit::Loose,
                                        },
                                    ),
                                ),
                            )
                        }
                    },
                }
            },
        }
    }
}

/// The layout of a table after its first `k` columns, and what the columns
/// laid out ask of the distribution of width.
pub open spec fn table_progress<Col: TableColumn, Data: TableData>(
    columns: Seq<Col>,
    data: Option<Data>,
    rows: usize,
    settings: TableLayout,
    available: Size,
    k: int,
) -> Result<(TableState, Seq<MinMaxFlex>), LayoutError>
    decreases k,
{
    if k <= 0 {
        Ok(
            (
                TableState {
                    stopped: false,
                    available,
                    width_min: 0,
                    width_max: 0,
                    headings_min: 0,
                    headings_max: 0,
                },
                Seq::empty(),
            ),
        )
    } else {
        match table_progress(columns, data, rows, settings, available, k - 1) {
            Err(e) => Err(e),
            Ok((before, inputs)) => if before.stopped {
                Ok((before, inputs))
            } else {
                match column_step(columns[k - 1], k - 1, data, rows, settings, before) {
                    Err(e) => Err(e),
                    Ok((after, Some(input))) => Ok((after, inputs.push(input))),
                    Ok((after, None)) => Ok((after, inputs)),
                }
            },
        }
    }
}

/// The least and the greatest height of the first row, from the cells of
/// the first `k` columns that are laid out: each cell is offered the least
/// width of its column and `height` rows. The row is one cell high at least;
/// its greatest height is the smallest maximum of a cell, and one at most.
pub open spec fn first_row<Data: TableData>(
    data: Data,
    inputs: Seq<MinMaxFlex>,
    height: usize,
    must_fit: bool,
    k: int,
) -> Result<(usize, usize), LayoutError>
    decreases k,
{
    if k <= 0 {
        Ok((1usize, 1usize))
    } else {
        match first_row(data, inputs, height, must_fit, k - 1) {
            Err(e) => Err(e),
            Ok(before) => match data.cell_spec(0, (k - 1) as usize) {
                None => Ok(before),
                Some(cell) => match cell.layout_spec(Size { width: inputs[k - 1].min, height }) {
                    Ok(layout) => Ok(
                        (
                            max_int(before.0 as int, layout.min.height as int) as usize,
                            min_int(before.1 as int, layout.max.height as int) as usize,
                        ),
                    ),
                    Err(LayoutError::InsufficientSpace) => if must_fit {
                        Err(LayoutError::InsufficientSpace)
                    } else {
                        Ok(before)
                    },
                    Err(e) => Err(e),
                },
            },
        }
    }
}

/// The height bounds of the first row of a table: one cell without data or
/// with a single row, else what the cells of the first row say.
pub open spec fn first_row_height<Data: TableData>(
    data: Option<Data>,
    rows: usize,
    inputs: Seq<MinMaxFlex>,
    height: usize,
    must_fit: bool,
) -> Result<(usize, usize), LayoutError> {
    match data {
        Some(data) => if rows > 1 {
            first_row(data, inputs, height, must_fit, inputs.len() as int)
        } else {
            Ok((1usize, 1usize))
        },
        None => Ok((1usize, 1usize)),
    }
}

/// Number of rows of the data, none without data.
pub open spec fn data_rows<Data: TableData>(data: Option<Data>) -> usize {
    match data {
        Some(data) => data.rows_spec(),
        None => 0,
    }
}

/// The range of a table from what its layout found. The table is as wide as
/// its columns and separators; it is as high as its headings and first row
/// at least, and as its headings and all its rows and one more row at most.
/// The maximum is cut down to what is available, but not below the minimum.
/// A minimum that is not available is not enough space.
pub open spec fn table_range(
    found: TableState,
    row_heights: (usize, usize),
    rows: usize,
    settings: TableLayout,
    available: Size,
) -> LayoutResult {
    let headings_min = if settings.show_column_headings {
        found.headings_min
    } else {
        0
    };
    let headings_max = if settings.show_column_headings {
        found.headings_max
    } else {
        0
    };
    let min = Size { width: found.width_min, height: clamp_usize(headings_min + row_heights.0) };
    let max = Size {
        width: found.width_max,
        height: clamp_usize(headings_max + row_heights.1 * rows + 1),
    };
    if available.fits(min) {
        Ok(LayoutSize { min, max: max.meet(available).join(min), flex: 0, fit: FlexFit::Tight })
    } else {
        Err(LayoutError::InsufficientSpace)
    }
}

/// The range of a table and what its columns ask of the distribution of
/// width. A table without columns takes no room.
pub open spec fn table_layout<Cols: TableColumns, Data: TableData>(
    columns: Option<Cols>,
    rows: Option<usize>,
    data: Option<Data>,
    settings: TableLayout,
    available: Size,
) -> Result<(LayoutSize, Seq<MinMaxFlex>), LayoutError> {
    match columns {
        None => Ok(
            (
                LayoutSize {
                    min: Size { width: 0, height: 0 },
                    max: Size { width: 0, height: 0 },
                    flex: 0,
                    fit: FlexFit::Tight,
                },
                Seq::empty(),
            ),
        ),
        Some(columns) => match table_progress(
            columns.columns_spec(),
            data,
            row_count(rows, data),
            settings,
            available,
            columns.columns_spec().len() as int,
        ) {
            Err(e) => Err(e),
            Ok((found, inputs)) => {
                let headings_min = if settings.show_column_headings {
                    found.headings_min
                } else {
                    0
                };
                match first_row_height(
                    data,
                    row_count(rows, data),
                    inputs,
                    max_int(available.height - headings_min, 0) as usize,
                    settings.must_render_fit_all_columns,
                ) {
                    Err(e) => Err(e),
                    Ok(row_heights) => match table_range(
                        found,
                        row_heights,
                        data_rows(data),
                        settings,
                        available,
                    ) {
                        Ok(layout) => Ok((layout, inputs)),
                        Err(e) => Err(e),
                    },
                }
            },
        },
    }
}

/// The widths of the columns of a table that is `width` columns wide: one
/// column of width is set aside for each separator, and the rest is
/// distributed over what the columns ask. Where the separators and the least
/// widths together do not fit, there is not enough space.
pub open spec fn table_widths(inputs: Seq<MinMaxFlex>, width: usize) -> Result<
    Seq<usize>,
    LayoutError,
> {
    let separators = if inputs.len() > 0 {
        inputs.len() - 1
    } else {
        0
    };
    if separators <= width && sum_min(inputs) <= width - separators {
        Ok(Seq::new(inputs.len(), |i: int| flex_size(inputs, width - separators, i) as usize))
    } else {
        Err(LayoutError::InsufficientSpace)
    }
}

/// See [`table_widths`].
pub fn layout_flex(render_size: &Size, input_layout: &Vec<MinMaxFlex>) -> (r: Result<
    Vec<usize>,
    LayoutError,
>)
    ensures
        match table_widths(input_layout@, render_size.width) {
            Ok(widths) => r matches Ok(found) && found@ == widths && sum_sizes(found@) + (if found@.len()
                > 0 {
                found@.len() - 1
            } else {
                0
            }) <= render_size.width,
            Err(e) => r == Err::<Vec<usize>, LayoutError>(e),
        },
{
    let separators: usize = if input_layout.len() > 0 {
        input_layout.len() - 1
    } else {
        0
    };
    if separators > render_size.width {
        return Err(LayoutError::InsufficientSpace);
    }
    match compute_flex_layout(render_size.width - separators, input_layout) {
        Ok((_, widths)) => {
            Ok(widths)
        },
        Err(e) => Err(e),
    }
}

/// Lays out one more column. See [`column_step`]. Returns the state after
/// the column and, where the column was laid out, what it asks of the
/// distribution of width.
pub fn step_column<Col: TableColumn, Data: TableData>(
    column: &Col,
    index: usize,
    data: Option<&Data>,
    rows: usize,
    settings: &TableLayout,
    before: TableState,
) -> (r: Result<(TableState, Option<MinMaxFlex>), LayoutError>)
    ensures
        r == column_step(*column, index as int, owned(data), rows, *settings, before),
        r matches Ok((state, input)) ==> (input is None <==> state.stopped),
{
    let must_fit = settings.must_render_fit_all_columns;
    let separator: usize = if index > 0 { 1 } else { 0 };
    if !before.available.contains(Size::new(separator, 1)) {
        if must_fit {
            return Err(LayoutError::InsufficientSpace);
        }
        return Ok(
            (
                TableState {
                    stopped: true,
                    available: before.available,
                    width_min: before.width_min,
                    width_max: before.width_max,
                    headings_min: before.headings_min,
                    headings_max: before.headings_max,
                },
                None,
            ),
        );
    }
    let available = Size::new(before.available.width - separator, before.available.height);
    let width_min: usize = if before.width_min <= usize::MAX - separator {
        before.width_min + separator
    } else {
        before.width_min
    };
    let width_max: usize = if before.width_max <= usize::MAX - separator {
        before.width_max + separator
    } else {
        before.width_max
    };
    let gave_up = TableState {
        stopped: true,
        available,
        width_min,
        width_max,
        headings_min: before.headings_min,
        headings_max: before.headings_max,
    };
    let heading = match column.layout(&available) {
        Ok(heading) => heading,
        Err(LayoutError::InsufficientSpace) => {
            if must_fit {
                return Err(LayoutError::InsufficientSpace);
            }
            return Ok((gave_up, None));
        },
        Err(e) => {
            return Err(e);
        },
    };
    let policy = column.get_width();
    let measured = match policy.auto_mode {
        ColumnWidthAuto::Off => Ok(0),
        ColumnWidthAuto::Heading => Ok(heading.max.width),
        ColumnWidthAuto::AllCells => measure_cells(data, rows, index, &available, false, settings),
        ColumnWidthAuto::VisibleCells => measure_cells(
            data,
            rows,
            index,
            &available,
            true,
            settings,
        ),
        ColumnWidthAuto::AllCellsOrHeading => match measure_cells(
            data,
            rows,
            index,
            &available,
            false,
            settings,
        ) {
            Ok(cells) => Ok(max_usize(cells, heading.max.width)),
            Err(e) => Err(e),
        },
        ColumnWidthAuto::VisibleCellsOrHeading => match measure_cells(
            data,
            rows,
            index,
            &available,
            true,
            settings,
        ) {
            Ok(cells) => Ok(max_usize(cells, heading.max.width)),
            Err(e) => Err(e),
        },
    };
    let auto = match measured {
        Ok(auto) => auto,
        Err(e) => {
            return Err(e);
        },
    };
    let (least, greatest) = bounds_for(&policy, heading.max.width, auto);
    let height_min: usize = if settings.show_column_headings { heading.min.height } else { 0 };
    let height_max: usize = if settings.show_column_headings { heading.max.height } else { 0 };
    if !available.contains(Size::new(least, height_min)) {
        if must_fit {
            return Err(LayoutError::InsufficientSpace);
        }
        return Ok((gave_up, None));
    }
    Ok(
        (
            TableState {
                stopped: false,
                available: Size::new(available.width - least, available.height),
                width_min: add_or_max(width_min, least),
                width_max: add_or_max(width_max, greatest),
                headings_min: max_usize(before.headings_min, height_min),
                headings_max: min_usize(before.headings_max, height_max),
            },
            Some(MinMaxFlex::new(least, greatest, policy.flex_weight, FlexFit::Loose)),
        ),
    )
}

/// Once the layout of a table has failed, it stays failed.
pub proof fn lemma_table_error_stays<Col: TableColumn, Data: TableData>(
    columns: Seq<Col>,
    data: Option<Data>,
    rows: usize,
    settings: TableLayout,
    available: Size,
    j: int,
    k: int,
)
    requires
        0 <= j <= k,
        table_progress(columns, data, rows, settings, available, j) is Err,
    ensures
        table_progress(columns, data, rows, settings, available, k) == table_progress(
            columns,
            data,
            rows,
            settings,
            available,
            j,
        ),
    decreases k,
{
    if j < k {
        lemma_table_error_stays(columns, data, rows, settings, available, j, k - 1);
    }
}

/// Once the layout of a table has stopped, later columns change nothing.
pub proof fn lemma_table_stop_stays<Col: TableColumn, Data: TableData>(
    columns: Seq<Col>,
    data: Option<Data>,
    rows: usize,
    settings: TableLayout,
    available: Size,
    j: int,
    k: int,
)
    requires
        0 <= j <= k,
        j == k || (table_progress(columns, data, rows, settings, available, j) matches Ok(found)
            && found.0.stopped),
    ensures
        table_progress(columns, data, rows, settings, available, k) == table_progress(
            columns,
            data,
            rows,
            settings,
            available,
            j,
        ),
    decreases k,
{
    if j < k {
        lemma_table_stop_stays(columns, data, rows, settings, available, j, k - 1);
    }
}

/// Once the layout of the first row has failed, it stays failed.
pub proof fn lemma_first_row_error_stays<Data: TableData>(
    data: Data,
    inputs: Seq<MinMaxFlex>,
    height: usize,
    must_fit: bool,
    j: int,
    k: int,
)
    requires
        0 <= j <= k,
        first_row(data, inputs, height, must_fit, j) is Err,
    ensures
        first_row(data, inputs, height, must_fit, k) == first_row(
            data,
            inputs,
            height,
            must_fit,
            j,
        ),
    decreases k,
{
    if j < k {
        lemma_first_row_error_stays(data, inputs, height, must_fit, j, k - 1);
    }
}

/// The height bounds of the first row. See [`first_row_height`].
pub fn measure_first_row<Data: TableData>(
    data: Option<&Data>,
    rows: usize,
    inputs: &Vec<MinMaxFlex>,
    height: usize,
    must_fit: bool,
) -> (r: Result<(usize, usize), LayoutError>)
    ensures
        r == first_row_height(owned(data), rows, inputs@, height, must_fit),
{
    let cells = match data {
        Some(cells) => cells,
        None => {
            return Ok((1, 1));
        },
    };
    if rows <= 1 {
        return Ok((1, 1));
    }
    let n: usize = inputs.len();
    let mut least: usize = 1;
    let mut greatest: usize = 1;
    let mut col: usize = 0;
    while col < n
        invariant
            n == inputs@.len(),
            0 <= col <= n,
            data == Some(cells),
            rows > 1,
            first_row(*cells, inputs@, height, must_fit, col as int) == Ok::<
                (usize, usize),
                LayoutError,
            >((least, greatest)),
        decreases n - col,
    {
        match cells.cell(0, col) {
            None => {},
            Some(cell) => match cell.layout(&Size::new(inputs[col].min, height)) {
                Ok(layout) => {
                    least = max_usize(least, layout.min.height);
                    greatest = min_usize(greatest, layout.max.height);
                },
                Err(LayoutError::InsufficientSpace) => {
                    if must_fit {
                        proof {
                            lemma_first_row_error_stays(
                                *cells,
                                inputs@,
                                height,
                                must_fit,
                                col + 1,
                                n as int,
                            );
                        }
                        return Err(LayoutError::InsufficientSpace);
                    }
                },
                Err(e) => {
                    proof {
                        lemma_first_row_error_stays(
                            *cells,
                            inputs@,
                            height,
                            must_fit,
                            col + 1,
                            n as int,
                        );
                    }
                    return Err(e);
                },
            },
        }
        col = col + 1;
    }
    Ok((least, greatest))
}

/// The range of a table from what its layout found. See [`table_range`].
pub fn range_for(
    found: &TableState,
    row_heights: (usize, usize),
    rows: usize,
    settings: &TableLayout,
    avail_size: &Size,
) -> (r: LayoutResult)
    ensures
        r == table_range(*found, row_heights, rows, *settings, *avail_size),
        r matches Ok(layout) ==> layout.within(*avail_size),
{
    let headings_min: usize = if settings.show_column_headings { found.headings_min } else { 0 };
    let headings_max: usize = if settings.show_column_headings { found.headings_max } else { 0 };
    let min = Size::new(found.width_min, add_or_max(headings_min, row_heights.0));
    let all_rows: usize = match row_heights.1.checked_mul(rows) {
        Some(all_rows) => all_rows,
        None => usize::MAX,
    };
    assert(0 <= row_heights.1 * rows) by (nonlinear_arith)
        requires
            0 <= row_heights.1,
            0 <= rows,
    ;
    let max = Size::new(found.width_max, add_or_max(add_or_max(headings_max, all_rows), 1));
    if avail_size.contains(min) {
        Ok(LayoutSize { min, max: max.min(*avail_size).max(min), flex: 0, fit: FlexFit::Tight })
    } else {
        Err(LayoutError::InsufficientSpace)
    }
}

/// A table: columns with headings, optional row headings, and cells.
pub struct Table<Columns, Rows, Data> {
    columns: Option<Columns>,
    rows: Option<Rows>,
    data: Option<Data>,
    layout: TableLayout,
}

/// The first column from `from` on that position `x` falls into, when `x`
/// is not left of column `from`: each column takes its width and the
/// separator that follows it.
pub open spec fn hit_column(widths: Seq<usize>, x: int, from: int) -> Option<int>
    decreases widths.len() - from,
{
    if from < 0 || from >= widths.len() {
        None
    } else if x < column_start(widths, from + 1) {
        Some(from)
    } else {
        hit_column(widths, x, from + 1)
    }
}

/// The position of the left edge of column `col`, from the left edge of the
/// table.
pub open spec fn column_start(widths: Seq<usize>, col: int) -> int {
    size_upto(widths, col) + col
}

/// The frame of the part of a table that starts `x` columns and `y` rows
/// into `frame` and is `width` columns wide and one row high.
pub open spec fn part_frame(frame: Rect, x: int, y: int, width: usize) -> Rect {
    Rect {
        origin: Point { x: clamp_usize(frame.origin.x + x), y: clamp_usize(frame.origin.y + y) },
        size: Size { width, height: 1 },
    }
}

/// Every one of `n` columns has an item: so it is with the headings.
pub open spec fn all_present(n: nat) -> Seq<bool> {
    Seq::new(n, |col: int| true)
}

/// Which of the first `n` columns have a cell in row `row` of `data`.
pub open spec fn cells_present<Data: TableData>(data: Data, row: usize, n: nat) -> Seq<bool> {
    Seq::new(n, |col: int| data.cell_spec(row, col as usize) is Some)
}

/// The frames that the parts of one row of a table are rendered into, up to
/// column `k`: for each column, from the second on, one cell for the
/// separator left of it, and the frame of the column's item where it has one.
/// `y` is the row of the frame that the table row is rendered in, and
/// `present` tells which columns have an item.
pub open spec fn row_frames(
    frame: Rect,
    widths: Seq<usize>,
    y: int,
    present: Seq<bool>,
    k: int,
) -> Seq<Rect>
    decreases k,
{
    if k <= 0 {
        Seq::empty()
    } else {
        let before = row_frames(frame, widths, y, present, k - 1);
        let separated = if k - 1 > 0 {
            before.push(part_frame(frame, column_start(widths, k - 1) - 1, y, 1))
        } else {
            before
        };
        if present[k - 1] {
            separated.push(part_frame(frame, column_start(widths, k - 1), y, widths[k - 1]))
        } else {
            separated
        }
    }
}

/// The frames that the parts of the first `k` rows of cells are rendered
/// into: row after row, each as [`row_frames`] says, the first one `top` rows
/// into the frame.
pub open spec fn rows_frames<Data: TableData>(
    data: Data,
    frame: Rect,
    widths: Seq<usize>,
    top: int,
    k: int,
) -> Seq<Rect>
    decreases k,
{
    if k <= 0 {
        Seq::empty()
    } else {
        rows_frames(data, frame, widths, top, k - 1) + row_frames(
            frame,
            widths,
            top + k - 1,
            cells_present(data, (k - 1) as usize, widths.len()),
            widths.len() as int,
        )
    }
}

/// A part of a table, as it is rendered: the separator between two
/// columns, the heading of a column, or the cell of a row in a column.
pub enum TablePart {
    Separator,
    Heading(usize),
    Cell(usize, usize),
}

/// The parts of one row of a table that are rendered, up to column `k`, in
/// the order of [`row_frames`]: for each column, from the second on, the
/// separator left of it, and the column's item where it has one. The row of
/// the headings is `None`, a row of cells `Some` of its number.
pub open spec fn row_parts(row: Option<usize>, present: Seq<bool>, k: int) -> Seq<TablePart>
    decreases k,
{
    if k <= 0 {
        Seq::empty()
    } else {
        let before = row_parts(row, present, k - 1);
        let separated = if k - 1 > 0 {
            before.push(TablePart::Separator)
        } else {
            before
        };
        if present[k - 1] {
            separated.push(
                match row {
                    None => TablePart::Heading((k - 1) as usize),
                    Some(row) => TablePart::Cell(row, (k - 1) as usize),
                },
            )
        } else {
            separated
        }
    }
}

/// The parts of the first `k` rows of cells of a table with `n` columns,
/// in the order of [`rows_frames`].
pub open spec fn rows_parts<Data: TableData>(data: Data, n: nat, k: int) -> Seq<TablePart>
    decreases k,
{
    if k <= 0 {
        Seq::empty()
    } else {
        rows_parts(data, n, k - 1) + row_parts(
            Some((k - 1) as usize),
            cells_present(data, (k - 1) as usize, n),
            n as int,
        )
    }
}

/// See [`part_frame`].
pub fn frame_of_part(frame: &Rect, x: usize, y: usize, width: usize) -> (r: Rect)
    ensures
        r == part_frame(*frame, x as int, y as int, width),
{
    Rect::new(
        Point::new(add_or_max(frame.origin.x, x), add_or_max(frame.origin.y, y)),
        Size::new(width, 1),
    )
}

/// The column of a table with columns of the given widths that position
/// `x` falls into, if any.
pub fn column_at(widths: &Vec<usize>, x: usize) -> (r: Option<usize>)
    ensures
        match hit_column(widths@, x as int, 0) {
            Some(col) => r == Some(col as usize) && 0 <= col < widths@.len(),
            None => r is None,
        },
{
    let n: usize = widths.len();
    let mut start: usize = 0;
    let mut col: usize = 0;
    while col < n
        invariant
            n == widths@.len(),
            0 <= col <= n,
            start == column_start(widths@, col as int),
            start <= x,
            hit_column(widths@, x as int, 0) == hit_column(widths@, x as int, col as int),
        decreases n - col,
    {
        let width: usize = widths[col];
        if x - start <= width {
            return Some(col);
        }
        start = start + width + 1;
        col = col + 1;
    }
    None
}

impl Table<(), (), ()> {
    /// A table without columns, rows or cells, laid out the default way.
    pub fn new() -> (r: Self)
        ensures
            r.cols() is None,
            r.rws() is None,
            r.cells() is None,
            r.settings() == (TableLayout {
                show_column_headings: true,
                column_separator: ' ',
                must_render_fit_all_columns: false,
            }),
    {
        Table { columns: None, rows: None, data: None, layout: TableLayout::default() }
    }
}

impl<Columns: TableColumns, Rows: TableRows, Data: TableData> Table<Columns, Rows, Data> {
    /// The columns, if the table was given any.
    pub closed spec fn cols(&self) -> Option<Columns> {
        self.columns
    }

    /// The row headings, if the table was given any.
    pub closed spec fn rws(&self) -> Option<Rows> {
        self.rows
    }

    /// The cells, if the table was given any.
    pub closed spec fn cells(&self) -> Option<Data> {
        self.data
    }

    /// How the table is laid out.
    pub closed spec fn settings(&self) -> TableLayout {
        self.layout
    }

    /// Number of row headings, if the table was given any.
    pub open spec fn rows_len(&self) -> Option<usize> {
        match self.rws() {
            Some(rows) => Some(rows.len_spec()),
            None => None,
        }
    }

    /// The range of the table for `available` and what its columns ask of
    /// the distribution of width.
    pub open spec fn layout_model(&self, available: Size) -> Result<
        (LayoutSize, Seq<MinMaxFlex>),
        LayoutError,
    > {
        table_layout(self.cols(), self.rows_len(), self.cells(), self.settings(), available)
    }

    /// The widths of the columns when the table is given `size`.
    pub open spec fn widths_model(&self, size: Size) -> Result<Seq<usize>, LayoutError> {
        match self.layout_model(size) {
            Ok((_, inputs)) => table_widths(inputs, size.width),
            Err(e) => Err(e),
        }
    }

    /// The frames that the parts of the table are rendered into when the
    /// table is given `frame`, in the order of rendering: the headings with the
    /// separators between them, if headings are shown, then row after row of
    /// cells with the separators between them, as many rows as the frame has
    /// room for below the headings. No frames where the table cannot be laid
    /// out.
    pub open spec fn plan(&self, frame: Rect) -> Seq<Rect> {
        match self.widths_model(frame.size) {
            Err(_) => Seq::empty(),
            Ok(widths) => {
                let heading_height: int = if self.settings().show_column_headings {
                    1
                } else {
                    0
                };
                let headings = if self.settings().show_column_headings {
                    row_frames(frame, widths, 0, all_present(widths.len()), widths.len() as int)
                } else {
                    Seq::empty()
                };
                match self.cells() {
                    None => headings,
                    Some(data) => headings + rows_frames(
                        data,
                        frame,
                        widths,
                        heading_height,
                        min_int(
                            row_count(self.rows_len(), self.cells()) as int,
                            max_int(frame.size.height - heading_height, 0),
                        ),
                    ),
                }
            },
        }
    }

    /// The same table with `columns` as its columns.
    pub fn columns<C: TableColumns>(self, columns: C) -> (r: Table<C, Rows, Data>)
        ensures
            r.cols() == Some(columns),
            r.rws() == self.rws(),
            r.cells() == self.cells(),
            r.settings() == self.settings(),
    {
        Table { columns: Some(columns), rows: self.rows, data: self.data, layout: self.layout }
    }

    pub fn columns_ref(&self) -> (r: Option<&Columns>)
        ensures
            owned(r) == self.cols(),
    {
        self.columns.as_ref()
    }

    /// The columns, to change them.
    pub fn columns_mut(&mut self) -> (r: Option<&mut Columns>)
        ensures
            r is Some <==> old(self).cols() is Some,
            final(self).rws() == old(self).rws(),
            final(self).cells() == old(self).cells(),
            final(self).settings() == old(self).settings(),
            r matches Some(columns) ==> Some(*columns) == old(self).cols() && final(self).cols()
                == Some(*final(columns)),
            r is None ==> final(self).cols() == old(self).cols(),
    {
        self.columns.as_mut()
    }

    /// The same table with `rows` as its row headings.
    pub fn rows<R: TableRows>(self, rows: R) -> (r: Table<Columns, R, Data>)
        ensures
            r.cols() == self.cols(),
            r.rws() == Some(rows),
            r.cells() == self.cells(),
            r.settings() == self.settings(),
    {
        Table { columns: self.columns, rows: Some(rows), data: self.data, layout: self.layout }
    }

    pub fn rows_ref(&self) -> (r: Option<&Rows>)
        ensures
            owned(r) == self.rws(),
    {
        self.rows.as_ref()
    }

    /// The row headings, to change them.
    pub fn rows_mut(&mut self) -> (r: Option<&mut Rows>)
        ensures
            r is Some <==> old(self).rws() is Some,
            final(self).cols() == old(self).cols(),
            final(self).cells() == old(self).cells(),
            final(self).settings() == old(self).settings(),
            r matches Some(rows) ==> Some(*rows) == old(self).rws() && final(self).rws() == Some(
                *final(rows),
            ),
            r is None ==> final(self).rws() == old(self).rws(),
    {
        self.rows.as_mut()
    }

    /// The same table with `data` as its cells.
    pub fn data<D: TableData>(self, data: D) -> (r: Table<Columns, Rows, D>)
        ensures
            r.cols() == self.cols(),
            r.rws() == self.rws(),
            r.cells() == Some(data),
            r.settings() == self.settings(),
    {
        Table { columns: self.columns, rows: self.rows, data: Some(data), layout: self.layout }
    }

    pub fn data_ref(&self) -> (r: Option<&Data>)
        ensures
            owned(r) == self.cells(),
    {
        self.data.as_ref()
    }

    /// The cells, to change them.
    pub fn data_mut(&mut self) -> (r: Option<&mut Data>)
        ensures
            r is Some <==> old(self).cells() is Some,
            final(self).cols() == old(self).cols(),
            final(self).rws() == old(self).rws(),
            final(self).settings() == old(self).settings(),
            r matches Some(data) ==> Some(*data) == old(self).cells() && final(self).cells()
                == Some(*final(data)),
            r is None ==> final(self).cells() == old(self).cells(),
    {
        self.data.as_mut()
    }

    /// The same table laid out as `layout` says.
    pub fn layout(self, layout: TableLayout) -> (r: Self)
        ensures
            r.cols() == self.cols(),
            r.rws() == self.rws(),
            r.cells() == self.cells(),
            r.settings() == layout,
    {
        Table { columns: self.columns, rows: self.rows, data: self.data, layout }
    }

    /// With how many rows the table reckons.
    pub fn row_total(&self) -> (r: usize)
        ensures
            r == row_count(self.rows_len(), self.cells()),
    {
        match &self.rows {
            Some(rows) => rows.len(),
            None => match &self.data {
                Some(data) => data.rows_len(),
                None => 0,
            },
        }
    }

    /// Lays the table out for `avail_size`: its range and, for each column
    /// that is laid out, what it asks of the distribution of width.
    pub fn layout_table(&self, avail_size: &Size) -> (r: Result<
        (LayoutSize, Vec<MinMaxFlex>),
        LayoutError,
    >)
        ensures
            match self.layout_model(*avail_size) {
                Ok((layout, inputs)) => r matches Ok((found, asked)) && found == layout && asked@
                    == inputs,
                Err(e) => r == Err::<(LayoutSize, Vec<MinMaxFlex>), LayoutError>(e),
            },
            r matches Ok((found, asked)) ==> found.within(*avail_size),
            r matches Ok((found, asked)) ==> match self.cols() {
                Some(columns) => asked@.len() <= columns.columns_spec().len(),
                None => asked@.len() == 0,
            },
    {
        let columns = match &self.columns {
            None => {
                return Ok((LayoutSize::min_max(Size::zero(), Size::zero()), Vec::new()));
            },
            Some(columns) => columns,
        };
        let rows: usize = self.row_total();
        let data = self.data.as_ref();
        let n: usize = columns.len();
        let ghost model = columns.columns_spec();
        let mut state = TableState {
            stopped: false,
            available: *avail_size,
            width_min: 0,
            width_max: 0,
            headings_min: 0,
            headings_max: 0,
        };
        let mut inputs: Vec<MinMaxFlex> = Vec::new();
        let mut col: usize = 0;
        while col < n && !state.stopped
            invariant
                n == model.len(),
                model == columns.columns_spec(),
                self.cols() == Some(*columns),
                owned(data) == self.cells(),
                rows == row_count(self.rows_len(), self.cells()),
                0 <= col <= n,
                table_progress(model, self.cells(), rows, self.settings(), *avail_size, col as int)
                    == Ok::<(TableState, Seq<MinMaxFlex>), LayoutError>((state, inputs@)),
                inputs@.len() <= col,
            decreases n - col,
        {
            let column = columns.column(col).unwrap();
            match step_column(column, col, data, rows, &self.layout, state) {
                Err(e) => {
                    proof {
                        lemma_table_error_stays(
                            model,
                            self.cells(),
                            rows,
                            self.settings(),
                            *avail_size,
                            col + 1,
                            n as int,
                        );
                    }
                    return Err(e);
                },
                Ok((after, input)) => {
                    state = after;
                    match input {
                        Some(input) => {
                            inputs.push(input);
                        },
                        None => {},
                    }
                },
            }
            col = col + 1;
        }
        proof {
            lemma_table_stop_stays(
                model,
                self.cells(),
                rows,
                self.settings(),
                *avail_size,
                col as int,
                n as int,
            );
        }
        let headings_min: usize = if self.layout.show_column_headings {
            state.headings_min
        } else {
            0
        };
        let row_heights = match measure_first_row(
            data,
            rows,
            &inputs,
            sub_or_zero(avail_size.height, headings_min),
            self.layout.must_render_fit_all_columns,
        ) {
            Ok(row_heights) => row_heights,
            Err(e) => {
                return Err(e);
            },
        };
        let data_rows: usize = match data {
            Some(data) => data.rows_len(),
            None => 0,
        };
        match range_for(&state, row_heights, data_rows, &self.layout, avail_size) {
            Ok(layout) => Ok((layout, inputs)),
            Err(e) => Err(e),
        }
    }

    /// The widths of the columns when the table is given `size`, in the
    /// order of the columns. Columns that are left out have none.
    pub fn column_widths(&self, size: &Size) -> (r: Result<Vec<usize>, LayoutError>)
        ensures
            match self.widths_model(*size) {
                Ok(widths) => r matches Ok(found) && found@ == widths && column_start(
                    found@,
                    found@.len() as int,
                ) <= size.width + 1,
                Err(e) => r == Err::<Vec<usize>, LayoutError>(e),
            },
            r matches Ok(found) ==> self.cols() matches Some(columns) ==> found@.len()
                <= columns.columns_spec().len(),
    {
        match self.layout_table(size) {
            Ok((_, inputs)) => layout_flex(size, &inputs),
            Err(e) => Err(e),
        }
    }
}

impl<Columns: TableColumns, Rows: TableRows, Data: TableData> Widget for Table<
    Columns,
    Rows,
    Data,
> {
    open spec fn layout_spec(&self, available: Size) -> LayoutResult {
        match self.layout_model(available) {
            Ok((layout, _)) => Ok(layout),
            Err(e) => Err(e),
        }
    }

    /// A middle click is done with; nothing else is handled.
    open spec fn event_spec(&self, event: AnyEvent, size: Size) -> EventResult {
        if column::is_middle_click(event) {
            EventResult::Done
        } else {
            EventResult::Unhandled
        }
    }

    open spec fn capability_spec(&self, capability: &Capability) -> bool {
        false
    }

    /// Renders the headings, if they are shown, in the first row of the
    /// frame and below them one row of cells for each row of the table, as
    /// many as the frame has room for. Each column is as wide as
    /// [`Table::column_widths`] says; between two columns stands the
    /// separator. What a heading or a cell reports is not passed on. Where the
    /// table cannot be laid out in the frame, nothing is painted and the error
    /// is returned.
    open spec fn render_spec(
        &self,
        before: RenderCtx,
        after: RenderCtx,
        r: RenderResult,
    ) -> bool {
        &&& (self.widths_model(before.frame().size) matches Err(e) ==> r == Err::<(), RenderError>(
            RenderError::Layout(e),
        ) && after.canvas() == before.canvas())
        &&& self.widths_model(before.frame().size) is Ok ==> r is Ok
        &&& after.placed_all_of(&before, self.plan(before.frame()))
        &&& after.painted_within(&before, self.plan(before.frame()))
        &&& self.widths_model(before.frame().size) is Ok ==> exists|steps: Seq<RenderCtx>|
            {
                &&& #[trigger] self.parts_in_turn(
                    steps,
                    self.plan(before.frame()),
                    self.parts(before.frame()),
                )
                &&& steps[0] == before
                &&& steps.last() == after
            }
    }

    proof fn lemma_layout_within(&self, available: Size) {
    }

    fn event(&mut self, event: &AnyEvent, size: &Size) -> (r: EventResult)
        ensures
            final(self).rws() == old(self).rws(),
            final(self).cells() == old(self).cells(),
            final(self).settings() == old(self).settings(),
            old(self).changed_by(final(self), *event, *size),
    {
        match event {
            AnyEvent::Input(Event::Mouse(mouse)) => {
                if !mouse.modifiers.is_empty() {
                    return EventResult::Unhandled;
                }
                match mouse.kind {
                    MouseEventKind::Down(MouseButton::Middle) => {},
                    _ => {
                        return EventResult::Unhandled;
                    },
                }
                let widths = match self.column_widths(size) {
                    Ok(widths) => widths,
                    Err(_) => {
                        return EventResult::Done;
                    },
                };
                let col = match column_at(&widths, mouse.column as usize) {
                    Some(col) => col,
                    None => {
                        return EventResult::Done;
                    },
                };
                match &mut self.columns {
                    Some(columns) => {
                        let _ = columns.column_event(col, event, size);
                    },
                    None => {},
                }
                EventResult::Done
            },
            _ => EventResult::Unhandled,
        }
    }

    fn layout(&self, avail_size: &Size) -> (r: LayoutResult) {
        match self.layout_table(avail_size) {
            Ok((layout, _)) => Ok(layout),
            Err(e) => Err(e),
        }
    }

    fn render(&self, ctx: &mut RenderCtx) -> (r: RenderResult) {
        let frame = ctx.get_frame();
        let widths = match self.column_widths(&frame.size) {
            Ok(widths) => widths,
            Err(e) => {
                return Err(RenderError::Layout(e));
            },
        };
        let n: usize = widths.len();
        let mut heading_height: usize = 0;
        let ghost headings = if self.settings().show_column_headings {
            row_frames(frame, widths@, 0, all_present(n as nat), n as int)
        } else {
            Seq::empty()
        };
        let ghost heading_parts = if self.settings().show_column_headings {
            row_parts(None, all_present(n as nat), n as int)
        } else {
            Seq::empty()
        };
        let ghost mut steps: Seq<RenderCtx> = seq![*ctx];
        if self.layout.show_column_headings {
            heading_height = 1;
            match &self.columns {
                None => {
                },
                Some(columns) => {
                    let mut the_x: usize = 0;
                    let mut col: usize = 0;
                    while col < n
                        invariant
                            n == widths@.len(),
                            n <= columns.columns_spec().len(),
                            0 <= col <= n,
                            col < n ==> the_x == column_start(widths@, col as int),
                            column_start(widths@, n as int) <= frame.size.width + 1,
                            ctx.confined(old(ctx)),
                            ctx.painted_where_placed(old(ctx)),
                            old(ctx).placed().len() <= ctx.placed().len(),
                            frame == old(ctx).frame(),
                            ctx.placed() == old(ctx).placed() + row_frames(
                                frame,
                                widths@,
                                0,
                                all_present(n as nat),
                                col as int,
                            ),
                            self.cols() == Some(*columns),
                            steps[0] == *old(ctx),
                            steps.last() == *ctx,
                            self.parts_in_turn(
                                steps,
                                row_frames(frame, widths@, 0, all_present(n as nat), col as int),
                                row_parts(None, all_present(n as nat), col as int),
                            ),
                        decreases n - col,
                    {
                        proof {
                            lemma_size_upto_monotonic(widths@, col + 1, n as int);
                            lemma_size_upto_monotonic(widths@, 0, col as int);
                        }
                        let ghost mut frames_done = row_frames(
                            frame,
                            widths@,
                            0,
                            all_present(n as nat),
                            col as int,
                        );
                        let ghost mut parts_done = row_parts(
                            None,
                            all_present(n as nat),
                            col as int,
                        );
                        if col > 0 {
                            let at = frame_of_part(&frame, the_x - 1, 0, 1);
                            let reported = self.render_part(at, &self.layout.column_separator, ctx);
                            proof {
                                self.lemma_separator_next(steps, frames_done, parts_done, *ctx, at, reported);
                                steps = steps.push(*ctx);
                                frames_done = frames_done.push(at);
                                parts_done = parts_done.push(TablePart::Separator);
                            }
                        }
                        let column = columns.column(col).unwrap();
                        let at = frame_of_part(&frame, the_x, 0, widths[col]);
                        let reported = self.render_part(at, column, ctx);
                        proof {
                            self.lemma_heading_next(
                                steps,
                                frames_done,
                                parts_done,
                                *ctx,
                                at,
                                *columns,
                                col,
                                reported,
                            );
                            steps = steps.push(*ctx);
                            frames_done = frames_done.push(at);
                            parts_done = parts_done.push(TablePart::Heading(col));
                            assert(frames_done =~= row_frames(
                                frame,
                                widths@,
                                0,
                                all_present(n as nat),
                                col + 1,
                            ));
                            assert(parts_done =~= row_parts(None, all_present(n as nat), col + 1));
                        }
                        if col + 1 < n {
                            the_x = the_x + widths[col] + 1;
                        }
                        col = col + 1;
                    }
                },
            }
        }
        assert(self.parts_in_turn(steps, headings, heading_parts));
        let data = match &self.data {
            Some(data) => data,
            None => {
                proof {
                    assert(self.parts_in_turn(steps, self.plan(frame), self.parts(frame)));
                }
                return Ok(());
            },
        };
        assert(headings + rows_frames(*data, frame, widths@, heading_height as int, 0) =~= headings);
        assert(heading_parts + rows_parts(*data, n as nat, 0) =~= heading_parts);
        let rows: usize = min_usize(self.row_total(), sub_or_zero(frame.size.height, heading_height));
        let mut row: usize = 0;
        while row < rows
            invariant
                n == widths@.len(),
                0 <= row <= rows,
                rows + heading_height <= frame.size.height || rows == 0,
                heading_height <= 1,
                column_start(widths@, n as int) <= frame.size.width + 1,
                self.widths_model(old(ctx).frame().size) == Ok::<Seq<usize>, LayoutError>(widths@),
                self.cells() == Some(*data),
                heading_height == (if self.settings().show_column_headings {
                    1int
                } else {
                    0int
                }),
                headings == (if self.settings().show_column_headings {
                    row_frames(frame, widths@, 0, all_present(n as nat), n as int)
                } else {
                    Seq::empty()
                }),
                rows == min_int(
                    row_count(self.rows_len(), self.cells()) as int,
                    max_int(frame.size.height - heading_height, 0),
                ),
                ctx.confined(old(ctx)),
                ctx.painted_where_placed(old(ctx)),
                old(ctx).placed().len() <= ctx.placed().len(),
                frame == old(ctx).frame(),
                ctx.placed() == old(ctx).placed() + headings + rows_frames(
                    *data,
                    frame,
                    widths@,
                    heading_height as int,
                    row as int,
                ),
                heading_parts == (if self.settings().show_column_headings {
                    row_parts(None, all_present(n as nat), n as int)
                } else {
                    Seq::empty()
                }),
                steps[0] == *old(ctx),
                steps.last() == *ctx,
                self.parts_in_turn(
                    steps,
                    headings + rows_frames(*data, frame, widths@, heading_height as int, row as int),
                    heading_parts + rows_parts(*data, n as nat, row as int),
                ),
            decreases rows - row,
        {
            let y: usize = row + heading_height;
            let mut the_x: usize = 0;
            let mut col: usize = 0;
            let ghost present = cells_present(*data, row, n as nat);
            let ghost above = ctx.placed();
            let ghost frames_above = headings + rows_frames(
                *data,
                frame,
                widths@,
                heading_height as int,
                row as int,
            );
            let ghost parts_above = heading_parts + rows_parts(*data, n as nat, row as int);
            assert(frames_above + row_frames(frame, widths@, y as int, present, 0) =~= frames_above);
            assert(parts_above + row_parts(Some(row), present, 0) =~= parts_above);
            while col < n
                invariant
                    n == widths@.len(),
                    0 <= col <= n,
                    y < frame.size.height,
                    col < n ==> the_x == column_start(widths@, col as int),
                    column_start(widths@, n as int) <= frame.size.width + 1,
                    ctx.confined(old(ctx)),
                    ctx.painted_where_placed(old(ctx)),
                    old(ctx).placed().len() <= ctx.placed().len(),
                    frame == old(ctx).frame(),
                    present == cells_present(*data, row, n as nat),
                    ctx.placed() == above + row_frames(frame, widths@, y as int, present, col as int),
                    self.cells() == Some(*data),
                    steps[0] == *old(ctx),
                    steps.last() == *ctx,
                    self.parts_in_turn(
                        steps,
                        frames_above + row_frames(frame, widths@, y as int, present, col as int),
                        parts_above + row_parts(Some(row), present, col as int),
                    ),
                decreases n - col,
            {
                proof {
                    lemma_size_upto_monotonic(widths@, col + 1, n as int);
                    lemma_size_upto_monotonic(widths@, 0, col as int);
                }
                let ghost mut frames_done = frames_above + row_frames(
                    frame,
                    widths@,
                    y as int,
                    present,
                    col as int,
                );
                let ghost mut parts_done = parts_above + row_parts(Some(row), present, col as int);
                if col > 0 {
                    let at = frame_of_part(&frame, the_x - 1, y, 1);
                    let reported = self.render_part(at, &self.layout.column_separator, ctx);
                    proof {
                        self.lemma_separator_next(steps, frames_done, parts_done, *ctx, at, reported);
                        steps = steps.push(*ctx);
                        frames_done = frames_done.push(at);
                        parts_done = parts_done.push(TablePart::Separator);
                    }
                }
                match data.cell(row, col) {
                    Some(cell) => {
                        let at = frame_of_part(&frame, the_x, y, widths[col]);
                        let reported = self.render_part(at, cell, ctx);
                        proof {
                            self.lemma_cell_next(
                                steps,
                                frames_done,
                                parts_done,
                                *ctx,
                                at,
                                *data,
                                row,
                                col,
                                reported,
                            );
                            steps = steps.push(*ctx);
                            frames_done = frames_done.push(at);
                            parts_done = parts_done.push(TablePart::Cell(row, col));
                        }
                    },
                    None => {},
                }
                proof {
                    assert(frames_done =~= frames_above + row_frames(
                        frame,
                        widths@,
                        y as int,
                        present,
                        col + 1,
                    ));
                    assert(parts_done =~= parts_above + row_parts(Some(row), present, col + 1));
                }
                if col + 1 < n {
                    the_x = the_x + widths[col] + 1;
                }
                col = col + 1;
            }
            proof {
                assert(frames_above + row_frames(frame, widths@, y as int, present, n as int)
                    =~= headings + rows_frames(
                    *data,
                    frame,
                    widths@,
                    heading_height as int,
                    row + 1,
                ));
                assert(parts_above + row_parts(Some(row), present, n as int) =~= heading_parts
                    + rows_parts(*data, n as nat, row + 1));
            }
            row = row + 1;
        }
        proof {
            let cells = rows_frames(*data, frame, widths@, heading_height as int, rows as int);
            assert(ctx.placed() =~= old(ctx).placed() + (headings + cells));
            assert(self.parts_in_turn(steps, self.plan(frame), self.parts(frame)));
        }
        Ok(())
    }

    fn has_capability(&self, capability: &Capability) -> (r: bool) {
        false
    }
}

impl<Columns: TableColumns, Rows: TableRows, Data: TableData> Table<Columns, Rows, Data> {
    /// What an event does to the columns: a middle click is handed to the
    /// column that it falls into, if the table can be laid out for `size` and
    /// the click falls into a column. Nothing but that column ever changes.
    pub open spec fn changed_by(&self, after: &Self, event: AnyEvent, size: Size) -> bool {
        match (self.cols(), self.widths_model(size), event) {
            (Some(columns), Ok(widths), AnyEvent::Input(Event::Mouse(mouse))) => match hit_column(
                widths,
                mouse.column as int,
                0,
            ) {
                Some(col) => if column::is_middle_click(event) {
                    after.cols() matches Some(changed) && changed.columns_spec().len()
                        == columns.columns_spec().len() && (forall|j: int|
                        0 <= j < columns.columns_spec().len() && j != col
                            ==> #[trigger] changed.columns_spec()[j] == columns.columns_spec()[j])
                        && columns.columns_spec()[col].after_event(
                        &changed.columns_spec()[col],
                        event,
                        size,
                    )
                } else {
                    after.cols() == self.cols()
                },
                None => after.cols() == self.cols(),
            },
            _ => after.cols() == self.cols(),
        }
    }

    /// The parts of the table that are rendered when it is given `frame`,
    /// in the order of rendering: the part at each position is rendered into
    /// the frame that [`Table::plan`] has at that position.
    pub open spec fn parts(&self, frame: Rect) -> Seq<TablePart> {
        match self.widths_model(frame.size) {
            Err(_) => Seq::empty(),
            Ok(widths) => {
                let headings = if self.settings().show_column_headings {
                    row_parts(None, all_present(widths.len()), widths.len() as int)
                } else {
                    Seq::empty()
                };
                match self.cells() {
                    None => headings,
                    Some(data) => headings + rows_parts(
                        data,
                        widths.len(),
                        min_int(
                            row_count(self.rows_len(), self.cells()) as int,
                            max_int(
                                frame.size.height - (if self.settings().show_column_headings {
                                    1int
                                } else {
                                    0int
                                }),
                                0,
                            ),
                        ),
                    ),
                }
            },
        }
    }

    /// `after` is what rendering `part` into `frame` makes of `before`, as
    /// [`RenderCtx::rendered`] says of the widget that the part is: the
    /// separator character, the column that heads, or the cell. What the
    /// widget reports is open.
    pub open spec fn part_rendered(
        &self,
        part: TablePart,
        before: RenderCtx,
        after: RenderCtx,
        frame: Rect,
    ) -> bool {
        match part {
            TablePart::Separator => exists|reported: RenderResult| #[trigger]
                after.rendered(&before, frame, &self.settings().column_separator, reported),
            TablePart::Heading(col) => self.cols() matches Some(columns) && col
                < columns.columns_spec().len() && exists|reported: RenderResult| #[trigger]
                after.rendered(&before, frame, &columns.columns_spec()[col as int], reported),
            TablePart::Cell(row, col) => self.cells() matches Some(data) && data.cell_spec(row, col)
                matches Some(cell) && exists|reported: RenderResult| #[trigger]
                after.rendered(&before, frame, &cell, reported),
        }
    }

    /// The parts were rendered one after another, part `j` into `frames[j]`
    /// on top of what the parts before it left: `steps[j]` is the context
    /// before part `j` was rendered and `steps[j + 1]` the context after it.
    pub open spec fn parts_in_turn(
        &self,
        steps: Seq<RenderCtx>,
        frames: Seq<Rect>,
        parts: Seq<TablePart>,
    ) -> bool {
        &&& steps.len() == frames.len() + 1
        &&& parts.len() == frames.len()
        &&& forall|j: int|
            0 <= j < frames.len() ==> self.part_rendered(
                parts[j],
                steps[j],
                steps[j + 1],
                #[trigger] frames[j],
            )
    }

    /// One more part rendered extends the record of those rendered before
    /// it.
    proof fn lemma_part_next(
        &self,
        steps: Seq<RenderCtx>,
        frames: Seq<Rect>,
        parts: Seq<TablePart>,
        after: RenderCtx,
        frame: Rect,
        part: TablePart,
    )
        requires
            self.parts_in_turn(steps, frames, parts),
            self.part_rendered(part, steps.last(), after, frame),
        ensures
            self.parts_in_turn(steps.push(after), frames.push(frame), parts.push(part)),
    {
        let steps2 = steps.push(after);
        let frames2 = frames.push(frame);
        let parts2 = parts.push(part);
        assert forall|j: int| 0 <= j < frames2.len() implies self.part_rendered(
            parts2[j],
            steps2[j],
            steps2[j + 1],
            #[trigger] frames2[j],
        ) by {
            if j < frames.len() {
                assert(self.part_rendered(parts[j], steps[j], steps[j + 1], frames[j]));
            }
        }
    }

    /// A separator rendered extends the record of the parts rendered before
    /// it.
    proof fn lemma_separator_next(
        &self,
        steps: Seq<RenderCtx>,
        frames: Seq<Rect>,
        parts: Seq<TablePart>,
        after: RenderCtx,
        frame: Rect,
        reported: RenderResult,
    )
        requires
            self.parts_in_turn(steps, frames, parts),
            after.rendered(&steps.last(), frame, &self.settings().column_separator, reported),
        ensures
            self.parts_in_turn(
                steps.push(after),
                frames.push(frame),
                parts.push(TablePart::Separator),
            ),
    {
        self.lemma_part_next(steps, frames, parts, after, frame, TablePart::Separator);
    }

    /// A heading rendered extends the record of the parts rendered before
    /// it.
    proof fn lemma_heading_next(
        &self,
        steps: Seq<RenderCtx>,
        frames: Seq<Rect>,
        parts: Seq<TablePart>,
        after: RenderCtx,
        frame: Rect,
        columns: Columns,
        col: usize,
        reported: RenderResult,
    )
        requires
            self.parts_in_turn(steps, frames, parts),
            self.cols() == Some(columns),
            col < columns.columns_spec().len(),
            after.rendered(&steps.last(), frame, &columns.columns_spec()[col as int], reported),
        ensures
            self.parts_in_turn(
                steps.push(after),
                frames.push(frame),
                parts.push(TablePart::Heading(col)),
            ),
    {
        self.lemma_part_next(steps, frames, parts, after, frame, TablePart::Heading(col));
    }

    /// A cell rendered extends the record of the parts rendered before it.
    proof fn lemma_cell_next(
        &self,
        steps: Seq<RenderCtx>,
        frames: Seq<Rect>,
        parts: Seq<TablePart>,
        after: RenderCtx,
        frame: Rect,
        data: Data,
        row: usize,
        col: usize,
        reported: RenderResult,
    )
        requires
            self.parts_in_turn(steps, frames, parts),
            self.cells() == Some(data),
            data.cell_spec(row, col) matches Some(cell) && after.rendered(
                &steps.last(),
                frame,
                &cell,
                reported,
            ),
        ensures
            self.parts_in_turn(
                steps.push(after),
                frames.push(frame),
                parts.push(TablePart::Cell(row, col)),
            ),
    {
        self.lemma_part_next(steps, frames, parts, after, frame, TablePart::Cell(row, col));
    }

    /// Renders one part of the table into its frame and returns what the
    /// part reports, which plays no role in the table.
    fn render_part<Part: Widget>(&self, frame: Rect, part: &Part, ctx: &mut RenderCtx) -> (reported:
        RenderResult)
        requires
            old(ctx).wf(),
        ensures
            final(ctx).confined(old(ctx)),
            final(ctx).placed() == old(ctx).placed().push(frame),
            final(ctx).rendered(old(ctx), frame, part, reported),
            forall|start: RenderCtx|
                #![trigger old(ctx).painted_where_placed(&start)]
                start.placed().len() <= old(ctx).placed().len() && old(ctx).painted_where_placed(
                    &start,
                ) && old(ctx).canvas().size() == start.canvas().size()
                    ==> final(ctx).painted_where_placed(&start),
    {
        let ghost before = *ctx;
        let reported = ctx.render_child(frame, part);
        proof {
            assert forall|start: RenderCtx|
                start.placed().len() <= before.placed().len() && #[trigger] before.painted_where_placed(
                    &start,
                ) && before.canvas().size() == start.canvas().size() implies ctx.painted_where_placed(
                &start,
            ) by {
                lemma_painted_where_placed(start, before, *ctx, frame);
            }
        }
        reported
    }
}

/// Every column has the fixed width that `widths` gives for it, as its
/// least and as its greatest width.
pub open spec fn all_fixed<Col: TableColumn>(columns: Seq<Col>, widths: Seq<usize>) -> bool {
    &&& columns.len() == widths.len()
    &&& forall|i: int|
        0 <= i < columns.len() ==> (#[trigger] columns[i]).width_spec().min
            == ColumnWidthValue::Fixed(widths[i]) && columns[i].width_spec().max
            == ColumnWidthValue::Fixed(widths[i])
}

/// While columns of fixed widths are laid out one after the other, the least
/// and the greatest width of the table are both the sum of the widths so far
/// and one cell for each separator between them.
pub proof fn lemma_fixed_progress<Col: TableColumn, Data: TableData>(
    columns: Seq<Col>,
    data: Option<Data>,
    rows: usize,
    settings: TableLayout,
    available: Size,
    widths: Seq<usize>,
    k: int,
)
    requires
        all_fixed(columns, widths),
        0 <= k <= columns.len(),
    ensures
        table_progress(columns, data, rows, settings, available, k) matches Ok((state, inputs)) ==> {
            &&& inputs.len() <= k
            &&& state.stopped ==> inputs.len() < k
            &&& inputs.len() == k ==> {
                &&& state.width_min == size_upto(widths, k) + (if k > 0 {
                    k - 1
                } else {
                    0
                })
                &&& state.width_max == state.width_min
                &&& state.width_min + state.available.width == available.width
            }
        },
    decreases k,
{
    if k > 0 {
        lemma_fixed_progress(columns, data, rows, settings, available, widths, k - 1);
    }
}

/// A table all of whose columns have a fixed width, and are laid out, is
/// exactly as wide as its columns and the separators between them: the
/// least and the greatest width it reports are both the sum of the widths of
/// the columns plus one cell less than there are columns.
pub proof fn lemma_fixed_columns_width<Columns: TableColumns, Rows: TableRows, Data: TableData>(
    table: Table<Columns, Rows, Data>,
    available: Size,
    widths: Seq<usize>,
)
    requires
        widths.len() > 0,
        table.cols() matches Some(columns) && all_fixed(columns.columns_spec(), widths),
        table.layout_model(available) matches Ok((_, inputs)) && inputs.len() == widths.len(),
    ensures
        table.layout_spec(available) matches Ok(layout) && layout.min.width == sum_sizes(widths)
            + widths.len() - 1 && layout.max.width == layout.min.width,
{
    let columns = table.cols().unwrap().columns_spec();
    lemma_fixed_progress(
        columns,
        table.cells(),
        row_count(table.rows_len(), table.cells()),
        table.settings(),
        available,
        widths,
        columns.len() as int,
    );
}

/// Every frame of one row of a table lies in its row, one cell high, not
/// left of the table's frame, and ends where the last of the columns ends or
/// left of that.
pub proof fn lemma_row_frames_extent(
    frame: Rect,
    widths: Seq<usize>,
    y: int,
    present: Seq<bool>,
    k: int,
    i: int,
)
    requires
        0 <= k <= widths.len(),
        0 <= y,
        0 <= i < row_frames(frame, widths, y, present, k).len(),
    ensures
        k > 0,
        row_frames(frame, widths, y, present, k)[i].size.height == 1,
        row_frames(frame, widths, y, present, k)[i].origin.y == clamp_usize(frame.origin.y + y),
        frame.origin.x <= row_frames(frame, widths, y, present, k)[i].origin.x,
        row_frames(frame, widths, y, present, k)[i].right() <= frame.origin.x + column_start(
            widths,
            k,
        ) - 1,
    decreases k,
{
    if k > 0 {
        let before = row_frames(frame, widths, y, present, k - 1);
        lemma_size_upto_monotonic(widths, 0, k - 1);
        lemma_size_upto_monotonic(widths, k - 1, k);
        if i < before.len() {
            lemma_row_frames_extent(frame, widths, y, present, k - 1, i);
        }
    }
}

/// Every frame of the rows of cells of a table lies in one of the rows, one
/// cell high, not left of the table's frame, and ends where the last of the
/// columns ends or left of that.
pub proof fn lemma_rows_frames_extent<Data: TableData>(
    data: Data,
    frame: Rect,
    widths: Seq<usize>,
    top: int,
    k: int,
    i: int,
)
    requires
        0 <= top,
        0 <= i < rows_frames(data, frame, widths, top, k).len(),
    ensures
        widths.len() > 0,
        rows_frames(data, frame, widths, top, k)[i].size.height == 1,
        clamp_usize(frame.origin.y + top) <= rows_frames(data, frame, widths, top, k)[i].origin.y
            < frame.origin.y + top + k,
        frame.origin.x <= rows_frames(data, frame, widths, top, k)[i].origin.x,
        rows_frames(data, frame, widths, top, k)[i].right() <= frame.origin.x + column_start(
            widths,
            widths.len() as int,
        ) - 1,
    decreases k,
{
    if k > 0 {
        let before = rows_frames(data, frame, widths, top, k - 1);
        if i < before.len() {
            lemma_rows_frames_extent(data, frame, widths, top, k - 1, i);
        } else {
            lemma_row_frames_extent(
                frame,
                widths,
                top + k - 1,
                cells_present(data, (k - 1) as usize, widths.len()),
                widths.len() as int,
                i - before.len(),
            );
        }
    }
}

/// A table paints only where its columns are: a cell in one of the frames
/// that its parts are rendered into lies in the table's frame, left of where
/// the last column ends. The columns take their widths and one cell between
/// each two of them, so what lies further right stays as it was.
pub proof fn lemma_table_paints_within_columns<
    Columns: TableColumns,
    Rows: TableRows,
    Data: TableData,
>(table: Table<Columns, Rows, Data>, frame: Rect, x: int, y: int)
    requires
        covers_any(table.plan(frame), x, y),
    ensures
        table.widths_model(frame.size) matches Ok(widths) && widths.len() > 0 && frame.origin.x
            <= x < frame.origin.x + sum_sizes(widths) + widths.len() - 1 && frame.origin.y <= y,
{
    let plan = table.plan(frame);
    let i = choose|i: int| 0 <= i < plan.len() && #[trigger] plan[i].covers(x, y);
    let widths = table.widths_model(frame.size)->Ok_0;
    let n = widths.len() as int;
    let headings = if table.settings().show_column_headings {
        row_frames(frame, widths, 0, all_present(widths.len()), n)
    } else {
        Seq::empty()
    };
    if i < headings.len() {
        lemma_row_frames_extent(frame, widths, 0, all_present(widths.len()), n, i);
    } else {
        let heading_height: int = if table.settings().show_column_headings {
            1
        } else {
            0
        };
        let data = table.cells()->Some_0;
        let count = min_int(
            row_count(table.rows_len(), table.cells()) as int,
            max_int(frame.size.height - heading_height, 0),
        );
        lemma_rows_frames_extent(data, frame, widths, heading_height, count, i - headings.len());
    }
}

} // verus!
