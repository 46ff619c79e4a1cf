//! Text broken into lines that fit the width it is given.

use vstd::prelude::*;
use vstd::string::StrSliceExecFns;
use crate::canvas::Cell;
use crate::geometry::{max_int, max_usize, min_int, min_usize, sub_or_zero, Point, Rect, Size};
use crate::layout::{FlexFit, LayoutError, LayoutResult, LayoutSize, RenderResult};
use crate::render::RenderCtx;
use crate::widgets::{AnyEvent, Capability, EventResult, Widget};

verus! {

/// How text is broken into lines.
#[derive(Debug, Clone, Copy, PartialEq, Eq, Structural)]
pub enum TextWrap {
    Word,
    Hard,
}

/// How the lines are placed in the width of the frame.
#[derive(Debug, Clone, Copy, PartialEq, Eq, Structural)]
pub enum TextAlign {
    Left,
    Center,
    Right,
    Justify,
}

/// What becomes of text that does not fit.
#[derive(Debug, Clone, Copy, PartialEq, Eq, Structural)]
pub enum TextOverflow {
    Fold,
    Crop,
    Symbol(char),
}

/// A paragraph of text.
pub struct Text {
    pub wrap: TextWrap,
    pub align: TextAlign,
    pub overflow: TextOverflow,
    pub data: String,
}

/// The lines that `textwrap::wrap` breaks `text` into for lines of `width`
/// columns, with the crate's default options.
pub uninterp spec fn wrapped(text: Seq<char>, width: usize) -> Seq<Seq<char>>;

/// What `justify::justify` makes of `text` for lines of `width` characters,
/// with paragraphs separated by a single line feed and the crate's default
/// settings otherwise.
pub uninterp spec fn justified(text: Seq<char>, width: usize) -> Seq<char>;

/// Whether `char::is_whitespace` holds of `c`.
pub uninterp spec fn white(c: char) -> bool;

/// Number of characters of `text` before its first line feed: the length of
/// the text where it has none.
pub open spec fn line_end(text: Seq<char>) -> int
    decreases text.len(),
{
    if text.len() == 0 || text[0] == '\n' {
        0
    } else {
        1 + line_end(text.subrange(1, text.len() as int))
    }
}

/// A line without the carriage return that it ends with, if it ends with one.
pub open spec fn without_return(line: Seq<char>) -> Seq<char> {
    if line.len() > 0 && line.last() == '\r' {
        line.drop_last()
    } else {
        line
    }
}

/// The lines of `text`. A line ends with a line feed, or with a carriage
/// return and a line feed, neither of which belongs to it. What follows the
/// last line feed is a line too, unless it is empty; a carriage return alone
/// ends no line.
pub open spec fn lines_of(text: Seq<char>) -> Seq<Seq<char>>
    decreases text.len(),
{
    let end = line_end(text);
    if text.len() == 0 {
        Seq::empty()
    } else if 0 <= end < text.len() {
        seq![without_return(text.subrange(0, end))] + lines_of(
            text.subrange(end + 1, text.len() as int),
        )
    } else {
        seq![text]
    }
}

/// No white space of `text` takes more than one byte.
pub open spec fn plain_spaced(text: Seq<char>) -> bool {
    forall|i: int| 0 <= i < text.len() && white(#[trigger] text[i]) ==> (text[i] as u32) < 0x80
}

/// Widest width that text is justified for: the largest number of columns
/// that a terminal reports.
pub const MAX_JUSTIFY_WIDTH: usize = 0xffff;

/// Calls `textwrap::wrap` with `textwrap::Options::new(width)` and copies
/// the lines it returns. The wrapping is a function of the text and the
/// width alone; what it returns is only named here.
#[verifier::external_body]
fn wrap_text(text: &str, width: usize) -> (lines: Vec<String>)
    ensures
        lines.deep_view() == wrapped(text@, width),
{
    textwrap::wrap(text, textwrap::Options::new(width)).into_iter().map(
        |line| line.into_owned(),
    ).collect()
}

/// Calls `char::is_whitespace`, whose result is only named here.
#[verifier::external_body]
fn is_white(c: char) -> (r: bool)
    ensures
        r == white(c),
{
    c.is_whitespace()
}

/// Calls `justify::justify` with the default settings but for the width and
/// a single line feed as paragraph separator. The crate cuts words one byte
/// behind the start of each white space, which fails on white space of more
/// than one byte, and it pads each line with spaces up to the width: so the
/// white space has to be of one byte each and the width bounded. What it
/// returns is only named here.
#[verifier::external_body]
fn justify_text(text: &str, width: usize) -> (r: String)
    requires
        plain_spaced(text@),
        width <= MAX_JUSTIFY_WIDTH,
    ensures
        r@ == justified(text@, width),
{
    let mut settings = justify::Settings::default();
    settings.width = width;
    settings.separator = "\n";
    justify::justify(text, &settings)
}

/// Calls `str::lines` and copies the lines it yields: the text cut at its
/// line feeds, each line without the line feed and without a carriage
/// return before it, and no empty line after the last line feed.
#[verifier::external_body]
fn split_lines(text: &str) -> (lines: Vec<String>)
    ensures
        lines.deep_view() == lines_of(text@),
{
    text.lines().map(|line| line.to_owned()).collect()
}

/// Length of the longest among the first `k` lines.
pub open spec fn longest(lines: Seq<Seq<char>>, k: int) -> int
    decreases k,
{
    if k <= 0 {
        0
    } else {
        max_int(longest(lines, k - 1), lines[k - 1].len() as int)
    }
}

/// The range of text that is broken into `lines`: at least one cell, at most
/// as wide as the longest line and as high as there are lines, as far as that
/// is available. Where not even one cell is offered, there is not enough
/// space.
pub open spec fn lines_layout(lines: Seq<Seq<char>>, available: Size) -> LayoutResult {
    if available.fits(Size { width: 1, height: 1 }) {
        Ok(
            LayoutSize {
                min: Size { width: 1, height: 1 },
                max: Size {
                    width: max_int(
                        1,
                        min_int(longest(lines, lines.len() as int), available.width as int),
                    ) as usize,
                    height: max_int(1, min_int(lines.len() as int, available.height as int)) as usize,
                },
                flex: 0,
                fit: FlexFit::Tight,
            },
        )
    } else {
        Err(LayoutError::InsufficientSpace)
    }
}

/// See [`lines_layout`].
pub fn layout_lines(lines: &Vec<String>, avail_size: &Size) -> (r: LayoutResult)
    ensures
        r == lines_layout(lines.deep_view(), *avail_size),
{
    if !avail_size.contains(Size::new(1, 1)) {
        return Err(LayoutError::InsufficientSpace);
    }
    let n: usize = lines.len();
    let mut widest: usize = 0;
    let mut i: usize = 0;
    while i < n
        invariant
            n == lines@.len(),
            0 <= i <= n,
            widest == longest(lines.deep_view(), i as int),
        decreases n - i,
    {
        let count: usize = lines[i].as_str().unicode_len();
        if count > widest {
            widest = count;
        }
        i = i + 1;
    }
    let width: usize = max_usize(1, min_usize(widest, avail_size.width));
    let height: usize = max_usize(1, min_usize(n, avail_size.height));
    Ok(LayoutSize::min_max(Size::new(1, 1), Size::new(width, height)))
}

/// The columns that a line of `len` characters is moved to the right in a
/// frame `width` columns wide: none when aligned left, half of what the line
/// leaves free when centred, all of it when aligned right.
pub open spec fn line_indent(align: TextAlign, width: usize, len: int) -> int {
    let padding = max_int(width - len, 0);
    match align {
        TextAlign::Center => padding / 2,
        TextAlign::Right => padding,
        _ => 0,
    }
}

/// The character that the lines put into the cell at column `x`, row `y`
/// when they are written into `frame` from its first cell on, if they put one
/// there: line `i` stands in row `i` of the frame, moved right by its indent
/// and cut off at the right edge, and no more lines are written than the
/// frame is high.
pub open spec fn line_glyph(
    lines: Seq<Seq<char>>,
    align: TextAlign,
    frame: Rect,
    x: int,
    y: int,
) -> Option<char> {
    let row = y - frame.origin.y;
    if 0 <= row < lines.len() && row < frame.size.height {
        let at = x - frame.origin.x - line_indent(align, frame.size.width, lines[row].len() as int);
        if 0 <= at < lines[row].len() && x < frame.right() {
            Some(lines[row][at])
        } else {
            None
        }
    } else {
        None
    }
}

/// Writes the lines one below the other from the cursor on, each moved to
/// the right as the alignment says, as many as the frame is high. With the
/// cursor on the first cell of the frame, as it is when a widget is rendered
/// as a child, the cells show what [`line_glyph`] says and keep their styles.
pub fn render_lines(lines: &Vec<String>, align: TextAlign, ctx: &mut RenderCtx) -> (r: RenderResult)
    requires
        old(ctx).wf(),
    ensures
        r is Ok,
        final(ctx).confined(old(ctx)),
        final(ctx).placed() == old(ctx).placed(),
        old(ctx).inner().cursor() == old(ctx).frame().origin ==> forall|x: int, y: int|
            final(ctx).canvas().on_grid(x, y) ==> #[trigger] final(ctx).canvas().draw_at(x, y)
                == match line_glyph(lines.deep_view(), align, old(ctx).frame(), x, y) {
                Some(glyph) => Cell { glyph: Some(glyph), ..old(ctx).canvas().draw_at(x, y) },
                None => old(ctx).canvas().draw_at(x, y),
            },
{
    let frame = ctx.get_frame();
    let n: usize = min_usize(lines.len(), frame.size.height);
    let ghost at_origin = ctx.inner().cursor() == frame.origin;
    let ghost texts = lines.deep_view();
    let mut i: usize = 0;
    while i < n
        invariant
            n == min_int(lines@.len() as int, frame.size.height as int),
            texts == lines.deep_view(),
            0 <= i <= n,
            ctx.confined(old(ctx)),
            ctx.placed() == old(ctx).placed(),
            frame == old(ctx).frame(),
            at_origin == (old(ctx).inner().cursor() == frame.origin),
            at_origin && i < n ==> ctx.inner().cursor() == (Point {
                x: frame.origin.x,
                y: (frame.origin.y + i) as usize,
            }),
            at_origin ==> forall|x: int, y: int|
                ctx.canvas().on_grid(x, y) ==> #[trigger] ctx.canvas().draw_at(x, y) == (if y
                    < frame.origin.y + i {
                    match line_glyph(texts, align, frame, x, y) {
                        Some(glyph) => Cell {
                            glyph: Some(glyph),
                            ..old(ctx).canvas().draw_at(x, y)
                        },
                        None => old(ctx).canvas().draw_at(x, y),
                    }
                } else {
                    old(ctx).canvas().draw_at(x, y)
                }),
        decreases n - i,
    {
        let line = lines[i].as_str();
        assert(texts[i as int] == line@);
        let padding: usize = sub_or_zero(frame.size.width, line.unicode_len());
        match align {
            TextAlign::Center => {
                ctx.renderer().move_right(padding / 2);
            },
            TextAlign::Right => {
                ctx.renderer().move_right(padding);
            },
            _ => {},
        }
        ctx.renderer().write(line);
        ctx.renderer().next_line();
        i = i + 1;
    }
    Ok(())
}

/// Tells whether no white space of `text` takes more than one byte.
pub fn has_plain_spaces(text: &str) -> (r: bool)
    ensures
        r == plain_spaced(text@),
{
    let len: usize = text.unicode_len();
    let mut i: usize = 0;
    while i < len
        invariant
            len == text@.len(),
            i <= len,
            forall|j: int| 0 <= j < i && white(#[trigger] text@[j]) ==> (text@[j] as u32) < 0x80,
        decreases len - i,
    {
        let c = text.get_char(i);
        if is_white(c) && (c as u32) >= 0x80 {
            return false;
        }
        i = i + 1;
    }
    true
}

impl Text {
    /// Left-aligned text that is broken between words: what `data` reads
    /// as when it is displayed.
    pub fn new<S: std::fmt::Display>(data: S) -> (r: Self)
        ensures
            vstd::string::to_string_from_display_ensures::<S>(&data, r.data),
            r.wrap == TextWrap::Word,
            r.align == TextAlign::Left,
            r.overflow == TextOverflow::Fold,
    {
        Text {
            wrap: TextWrap::Word,
            align: TextAlign::Left,
            overflow: TextOverflow::Fold,
            data: data.to_string(),
        }
    }

    /// Left-aligned text that is broken between words, with exactly the
    /// characters of `data`.
    pub fn from_text(data: &str) -> (r: Self)
        ensures
            r.data@ == data@,
            r.wrap == TextWrap::Word,
            r.align == TextAlign::Left,
            r.overflow == TextOverflow::Fold,
    {
        Text {
            wrap: TextWrap::Word,
            align: TextAlign::Left,
            overflow: TextOverflow::Fold,
            data: data.to_owned(),
        }
    }

    /// The text can be justified for lines of `width` columns: its white
    /// space is of one byte each and the width is one that a terminal can
    /// have.
    pub open spec fn justifiable(&self, width: usize) -> bool {
        plain_spaced(self.data@) && width <= MAX_JUSTIFY_WIDTH
    }

    /// The lines that the text is shown as in a frame `width` columns wide:
    /// justified text that can be justified is laid out as a whole and cut at
    /// its line feeds, all other text is wrapped.
    pub open spec fn lines_for(&self, width: usize) -> Seq<Seq<char>> {
        if self.align == TextAlign::Justify && self.justifiable(width) {
            lines_of(justified(self.data@, width))
        } else {
            wrapped(self.data@, width)
        }
    }

    /// How the lines are aligned in the frame: as the text says, but to the
    /// left where it is to be justified. Justified lines fill the width
    /// by themselves, and text that cannot be justified is aligned left.
    pub open spec fn align_for(&self) -> TextAlign {
        if self.align == TextAlign::Justify {
            TextAlign::Left
        } else {
            self.align
        }
    }

    pub fn align(self, alignment: TextAlign) -> (r: Self)
        ensures
            r.data == self.data,
            r.wrap == self.wrap,
            r.align == alignment,
            r.overflow == self.overflow,
    {
        Text { wrap: self.wrap, align: alignment, overflow: self.overflow, data: self.data }
    }
}

impl Widget for Text {
    /// The range of the lines that the text is broken into for the width
    /// that is available.
    open spec fn layout_spec(&self, available: Size) -> LayoutResult {
        lines_layout(wrapped(self.data@, available.width), available)
    }

    /// Text does not react to input.
    open spec fn event_spec(&self, event: AnyEvent, size: Size) -> EventResult {
        EventResult::Unhandled
    }

    open spec fn capability_spec(&self, capability: &Capability) -> bool {
        false
    }

    /// Breaks the text into lines for the width of the frame and writes
    /// them. Justified text is laid out for the width of the frame as a whole;
    /// text that cannot be justified, because it holds white space of more
    /// than one byte or the frame is wider than any terminal, is wrapped and
    /// written left-aligned.
    open spec fn render_spec(
        &self,
        before: RenderCtx,
        after: RenderCtx,
        r: RenderResult,
    ) -> bool {
        &&& r is Ok
        &&& after.placed() == before.placed()
        &&& before.inner().cursor() == before.frame().origin ==> forall|x: int, y: int|
            after.canvas().on_grid(x, y) ==> #[trigger] after.canvas().draw_at(x, y)
                == match line_glyph(
                self.lines_for(before.frame().size.width),
                self.align_for(),
                before.frame(),
                x,
                y,
            ) {
                Some(glyph) => Cell { glyph: Some(glyph), ..before.canvas().draw_at(x, y) },
                None => before.canvas().draw_at(x, y),
            }
    }

    proof fn lemma_layout_within(&self, available: Size) {
    }

    fn event(&mut self, event: &AnyEvent, size: &Size) -> (r: EventResult)
        ensures
            *final(self) == *old(self),
    {
        EventResult::Unhandled
    }

    fn layout(&self, avail_size: &Size) -> (r: LayoutResult) {
        let lines = wrap_text(self.data.as_str(), avail_size.width);
        layout_lines(&lines, avail_size)
    }

    fn render(&self, ctx: &mut RenderCtx) -> (r: RenderResult) {
        let width: usize = ctx.get_frame().size.width;
        match self.align {
            TextAlign::Justify => {
                if width <= MAX_JUSTIFY_WIDTH && has_plain_spaces(self.data.as_str()) {
                    let whole = justify_text(self.data.as_str(), width);
                    let lines = split_lines(whole.as_str());
                    render_lines(&lines, TextAlign::Left, ctx)
                } else {
                    let lines = wrap_text(self.data.as_str(), width);
                    render_lines(&lines, TextAlign::Left, ctx)
                }
            },
            _ => {
                let lines = wrap_text(self.data.as_str(), width);
                render_lines(&lines, self.align, ctx)
            },
        }
    }

    fn has_capability(&self, capability: &Capability) -> (r: bool) {
        false
    }
}

} // verus!
