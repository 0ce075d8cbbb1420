//! The layout of a table over pages, counted in lines of text.
//!
//! The table keeps a cursor: the lines that are used on the current page.
//! Each row is as high as its tallest wrapped cell. What is to be drawn comes
//! back as steps, each at its line on the page.
use crate::numbers::Figure;
use crate::pdf::{chunks, glued, lemma_chunks, piece_len, rgb_of, sub_strings, tint, Tint};
use crate::text::texts;
use vstd::prelude::*;

verus! {

/// The colours of a table.
#[derive(Debug, Copy, Clone, PartialEq, Eq, Structural)]
pub struct TableColors {
    pub header_color: Tint,
    pub fill_color: Tint,
    pub outline_color: Tint,
    pub good_color: Tint,
    pub bad_color: Tint,
    pub neutral_color: Tint,
}

/// A chart that fills a cell.
#[derive(Debug, Copy, Clone, PartialEq, Eq, Structural)]
pub enum Plot {
    Boxplot,
    Histogram,
    Cpkplot,
}

/// What a cell holds.
#[derive(Debug, Clone, PartialEq)]
pub enum CellContent {
    /// A text, which is wrapped to the column.
    String(String),
    /// A figure that is still to be written out.
    Number(Figure),
    /// A chart.
    Chart(Plot),
}

/// What a cell holds, as the contracts speak of it.
pub enum CellView {
    Text(Seq<char>),
    Number(Figure),
    Chart(Plot),
}

impl CellContent {
    /// What the cell holds, as the contracts speak of it.
    pub open spec fn shown(self) -> CellView {
        match self {
            CellContent::String(text) => CellView::Text(text@),
            CellContent::Number(figure) => CellView::Number(figure),
            CellContent::Chart(plot) => CellView::Chart(plot),
        }
    }
}

/// One thing to draw.
#[derive(Debug, PartialEq)]
pub enum Op {
    /// From here on lines are drawn in this colour.
    Outline { tint: Tint },
    /// A rule over the full width, at this line of the page.
    Rule { at: u128 },
    /// A new page; the lines count from its top.
    NewPage,
    /// The caption, wrapped, from this line on.
    Caption { lines: Vec<String>, at: u128 },
    /// A row of cells from the line `at` on, `height` lines high. `cells` has
    /// the wrapped text of each column, `charts` the chart of each column
    /// that has one. The row of column names has `header` set. With `merged`
    /// set the first column is as wide as the first two, and the second has
    /// no width.
    Row {
        cells: Vec<Vec<String>>,
        charts: Vec<Option<Plot>>,
        height: usize,
        at: u128,
        fill: (u16, u16, u16),
        indent: bool,
        header: bool,
        merged: bool,
    },
}

/// One thing to draw, as the contracts speak of it.
pub enum Step {
    Outline { tint: Tint },
    Rule { at: int },
    NewPage,
    Caption { lines: Seq<Seq<char>>, at: int },
    Row {
        cells: Seq<Seq<Seq<char>>>,
        charts: Seq<Option<Plot>>,
        height: int,
        at: int,
        fill: (u16, u16, u16),
        indent: bool,
        header: bool,
        merged: bool,
    },
}

/// The wrapped texts of each cell of `v`.
pub open spec fn pages_of(v: Seq<Vec<String>>) -> Seq<Seq<Seq<char>>> {
    Seq::new(v.len(), |i: int| texts(v[i]@))
}

impl Op {
    /// This step, as the contracts speak of it.
    pub open spec fn step(self) -> Step {
        match self {
            Op::Outline { tint } => Step::Outline { tint },
            Op::Rule { at } => Step::Rule { at: at as int },
            Op::NewPage => Step::NewPage,
            Op::Caption { lines, at } => Step::Caption { lines: texts(lines@), at: at as int },
            Op::Row { cells, charts, height, at, fill, indent, header, merged } => Step::Row {
                cells: pages_of(cells@),
                charts: charts@,
                height: height as int,
                at: at as int,
                fill,
                indent,
                header,
                merged,
            },
        }
    }
}

/// The steps, as the contracts speak of them.
pub open spec fn steps(ops: Seq<Op>) -> Seq<Step> {
    Seq::new(ops.len(), |i: int| ops[i].step())
}

/// The lines of a cell: a text wrapped to `width` characters, and one empty
/// line for anything else.
pub open spec fn wrap_cell(cell: CellView, width: usize) -> Seq<Seq<char>> {
    match cell {
        CellView::Text(s) => chunks(s, piece_len(width)),
        _ => seq![Seq::<char>::empty()],
    }
}

/// The cells, as the contracts speak of them.
pub open spec fn views(line: Seq<CellContent>) -> Seq<CellView> {
    Seq::new(line.len(), |i: int| line[i].shown())
}

/// The lines of each cell of a row, for columns of `max` characters.
pub open spec fn wrap_row(line: Seq<CellView>, max: Seq<usize>) -> Seq<Seq<Seq<char>>> {
    Seq::new(max.len(), |i: int| wrap_cell(line[i], max[i]))
}

/// The lines of each column name, for columns of `max` characters.
pub open spec fn wrap_header(hea: Seq<Seq<char>>, max: Seq<usize>) -> Seq<Seq<Seq<char>>> {
    Seq::new(max.len(), |i: int| chunks(hea[i], piece_len(max[i])))
}

/// The chart of each of the first `n` cells that has one.
pub open spec fn charts_of(line: Seq<CellView>, n: nat) -> Seq<Option<Plot>> {
    Seq::new(
        n,
        |i: int|
            match line[i] {
                CellView::Chart(plot) => Some(plot),
                _ => None,
            },
    )
}

/// The height of a row in lines: that of its tallest cell, and at least one.
pub open spec fn tallest(cells: Seq<Seq<Seq<char>>>) -> nat
    decreases cells.len(),
{
    if cells.len() == 0 {
        1
    } else {
        let before = tallest(cells.drop_last());
        if cells.last().len() > before {
            cells.last().len()
        } else {
            before
        }
    }
}

/// The column names as the cells of a row.
pub open spec fn header_line(hea: Seq<Seq<char>>) -> Seq<CellView> {
    Seq::new(hea.len(), |i: int| CellView::Text(hea[i]))
}

/// The colours of every table.
pub open spec fn table_colors() -> TableColors {
    TableColors {
        header_color: Tint::DarkGrey,
        fill_color: Tint::White,
        outline_color: Tint::Black,
        good_color: Tint::Green,
        bad_color: Tint::Red,
        neutral_color: Tint::White,
    }
}

/// A table that is being laid out.
#[derive(Debug)]
pub struct Table {
    /// The font size of the cells.
    pub fnt: i64,
    /// The characters that fit in a line of each column.
    pub max: Vec<usize>,
    /// The column names.
    pub hea: Vec<String>,
    /// The colours.
    pub col: TableColors,
    /// The caption.
    pub cap: String,
    /// The characters that fit in a line of the caption.
    pub capmax: usize,
    /// The lines that fit on the first page, under what stands there.
    pub first: usize,
    /// The lines that fit on each further page.
    pub rest: usize,
    /// Whether the table has left its first page.
    pub turned: bool,
    /// The lines that are used on the current page.
    pub pos: u128,
    /// Whether the first two columns are merged.
    pub merged: bool,
}

/// A table that is being laid out, as the contracts speak of it.
pub struct Layout {
    pub fnt: i64,
    pub max: Seq<usize>,
    pub hea: Seq<Seq<char>>,
    pub col: TableColors,
    pub cap: Seq<char>,
    pub capmax: usize,
    pub first: usize,
    pub rest: usize,
    pub turned: bool,
    pub pos: int,
    pub merged: bool,
}

impl View for Table {
    type V = Layout;

    open spec fn view(&self) -> Layout {
        Layout {
            fnt: self.fnt,
            max: self.max@,
            hea: texts(self.hea@),
            col: self.col,
            cap: self.cap@,
            capmax: self.capmax,
            first: self.first,
            rest: self.rest,
            turned: self.turned,
            pos: self.pos as int,
            merged: self.merged,
        }
    }
}

impl Layout {
    /// Whether the table has a name for each column.
    pub open spec fn wf(self) -> bool {
        self.hea.len() >= self.max.len() && self.pos >= 0
    }

    /// The lines that fit on the current page.
    pub open spec fn capacity(self) -> int {
        if self.turned {
            self.rest as int
        } else {
            self.first as int
        }
    }

    /// Whether a row of `n` lines no longer fits on the current page.
    pub open spec fn overflows(self, n: nat) -> bool {
        self.pos + n > self.capacity()
    }

    /// The lines of the caption where it is drawn: none without a caption,
    /// or where it is not asked for.
    pub open spec fn caption_lines(self, add: bool) -> Seq<Seq<char>> {
        if self.cap.len() == 0 || !add {
            Seq::empty()
        } else {
            chunks(self.cap, piece_len(self.capmax))
        }
    }

    /// The steps that draw the caption at the cursor.
    pub open spec fn caption_steps(self, add: bool) -> Seq<Step> {
        if self.caption_lines(add).len() == 0 {
            Seq::empty()
        } else {
            seq![Step::Caption { lines: self.caption_lines(add), at: self.pos }]
        }
    }

    /// The row of column names as it stands on top of a new page, under a
    /// caption of `above` lines.
    pub open spec fn header_step(self, above: nat) -> Step {
        Step::Row {
            cells: wrap_header(self.hea, self.max),
            charts: Seq::new(self.max.len(), |i: int| None::<Plot>),
            height: tallest(wrap_header(self.hea, self.max)) as int,
            at: above as int,
            fill: rgb_of(self.col.header_color),
            indent: false,
            header: true,
            merged: self.merged,
        }
    }

    /// The row `line` as it stands at the line `at`.
    pub open spec fn row_step(
        self,
        line: Seq<CellView>,
        fill: (u16, u16, u16),
        indent: bool,
        at: int,
    ) -> Step {
        Step::Row {
            cells: wrap_row(line, self.max),
            charts: charts_of(line, self.max.len()),
            height: tallest(wrap_row(line, self.max)) as int,
            at,
            fill,
            indent,
            header: false,
            merged: self.merged,
        }
    }

    /// The steps that draw the row `line`. Where it no longer fits on the
    /// page: a closing rule, a new page, the caption if it is asked for, the
    /// column names, and then the row. Otherwise the row at the cursor.
    pub open spec fn row_steps(
        self,
        line: Seq<CellView>,
        fill: (u16, u16, u16),
        indent: bool,
        add_caption: bool,
    ) -> Seq<Step> {
        let n = tallest(wrap_row(line, self.max));
        if self.overflows(n) {
            let caption = self.caption_lines(add_caption);
            let names = tallest(wrap_header(self.hea, self.max));
            seq![Step::Rule { at: self.pos }, Step::NewPage] + (if caption.len() == 0 {
                Seq::<Step>::empty()
            } else {
                seq![Step::Caption { lines: caption, at: 0 }]
            }) + seq![
                self.header_step(caption.len()),
                self.row_step(line, fill, indent, (caption.len() + names) as int),
            ]
        } else {
            seq![self.row_step(line, fill, indent, self.pos)]
        }
    }

    /// The cursor behind the row `line`.
    pub open spec fn row_pos(self, line: Seq<CellView>, add_caption: bool) -> int {
        let n = tallest(wrap_row(line, self.max));
        if self.overflows(n) {
            (self.caption_lines(add_caption).len() + tallest(wrap_header(self.hea, self.max))
                + n) as int
        } else {
            (self.pos + n) as int
        }
    }

    /// The table behind the row `line`.
    pub open spec fn next(self, line: Seq<CellView>, add_caption: bool) -> Layout {
        Layout {
            pos: self.row_pos(line, add_caption),
            turned: self.turned || self.overflows(tallest(wrap_row(line, self.max))),
            ..self
        }
    }

    /// The table behind the rows `rows`.
    pub open spec fn after(self, rows: Seq<Seq<CellView>>, add_caption: bool) -> Layout
        decreases rows.len(),
    {
        if rows.len() == 0 {
            self
        } else {
            self.after(rows.drop_last(), add_caption).next(rows.last(), add_caption)
        }
    }

    /// The steps that draw the rows `rows`, each in the colour of `fills`
    /// that stands at its place.
    pub open spec fn run(
        self,
        rows: Seq<Seq<CellView>>,
        fills: Seq<(u16, u16, u16)>,
        indent: bool,
        add_caption: bool,
    ) -> Seq<Step>
        decreases rows.len(),
    {
        if rows.len() == 0 {
            Seq::empty()
        } else {
            self.run(rows.drop_last(), fills, indent, add_caption) + self.after(
                rows.drop_last(),
                add_caption,
            ).row_steps(rows.last(), fills[rows.len() - 1], indent, add_caption)
        }
    }

    /// The lines that the rows `rows` take together.
    pub open spec fn heights(self, rows: Seq<Seq<CellView>>) -> nat
        decreases rows.len(),
    {
        if rows.len() == 0 {
            0
        } else {
            self.heights(rows.drop_last()) + tallest(wrap_row(rows.last(), self.max))
        }
    }

    /// The table with its first two columns merged: the first takes the
    /// characters of both, as far as a number can count them.
    pub open spec fn widened(self) -> Layout {
        Layout {
            max: self.max.update(
                0,
                if self.max[0] + self.max[1] > usize::MAX {
                    usize::MAX
                } else {
                    (self.max[0] + self.max[1]) as usize
                },
            ),
            merged: true,
            ..self
        }
    }

    /// The table with its first two columns apart again, the first with
    /// `first` characters.
    pub open spec fn narrowed(self, first: usize) -> Layout {
        Layout { max: self.max.update(0, first), merged: false, ..self }
    }

    /// A new table on its first page, before anything is drawn.
    pub open spec fn blank(
        fnt: i64,
        max: Seq<usize>,
        hea: Seq<Seq<char>>,
        cap: Seq<char>,
        capmax: usize,
        first: usize,
        rest: usize,
    ) -> Layout {
        Layout {
            fnt,
            max,
            hea,
            col: table_colors(),
            cap,
            capmax,
            first,
            rest,
            turned: false,
            pos: 0,
            merged: false,
        }
    }

    /// The table with its caption drawn.
    pub open spec fn titled(self, add: bool) -> Layout {
        Layout { pos: self.pos + self.caption_lines(add).len(), ..self }
    }
}

/// Wraps the cells of a row to their columns.
fn wrap_line(line: &Vec<CellContent>, max: &Vec<usize>) -> (r: (
    Vec<Vec<String>>,
    Vec<Option<Plot>>,
    usize,
))
    requires
        line@.len() >= max@.len(),
    ensures
        pages_of(r.0@) == wrap_row(views(line@), max@),
        r.1@ == charts_of(views(line@), max@.len()),
        r.2 == tallest(wrap_row(views(line@), max@)),
{
    let mut cells: Vec<Vec<String>> = Vec::new();
    let mut charts: Vec<Option<Plot>> = Vec::new();
    let mut height: usize = 1;
    let mut i: usize = 0;
    while i < max.len()
        invariant
            i <= max@.len(),
            line@.len() >= max@.len(),
            cells@.len() == i,
            pages_of(cells@) == wrap_row(views(line@), max@.take(i as int)),
            charts@ == charts_of(views(line@), i as nat),
            height == tallest(wrap_row(views(line@), max@.take(i as int))),
        decreases max@.len() - i,
    {
        let ghost before = wrap_row(views(line@), max@.take(i as int));
        let mut lines: Vec<String> = Vec::new();
        let mut chart: Option<Plot> = None;
        match &line[i] {
            CellContent::String(s) => {
                lines = sub_strings(s.as_str(), max[i]);
            },
            CellContent::Number(_) => {
                lines.push(String::new());
                assert(texts(lines@) =~= seq![Seq::<char>::empty()]);
            },
            CellContent::Chart(plot) => {
                lines.push(String::new());
                assert(texts(lines@) =~= seq![Seq::<char>::empty()]);
                chart = Some(*plot);
            },
        }
        assert(texts(lines@) == wrap_cell(views(line@)[i as int], max@[i as int]));
        if lines.len() > height {
            height = lines.len();
        }
        let ghost earlier = cells@;
        cells.push(lines);
        charts.push(chart);
        i += 1;
        proof {
            let after = wrap_row(views(line@), max@.take(i as int));
            assert(after.drop_last() =~= before);
            assert forall|j: int| 0 <= j < after.len() implies pages_of(cells@)[j]
                == after[j] by {
                if j < i - 1 {
                    assert(pages_of(earlier)[j] == before[j]);
                    assert(cells@[j] == earlier[j]);
                }
            }
            assert(pages_of(cells@) =~= after);
            assert(charts@ =~= charts_of(views(line@), i as nat));
        }
    }
    proof {
        assert(max@.take(i as int) =~= max@);
    }
    (cells, charts, height)
}

/// Wraps the column names to their columns.
fn wrap_names(hea: &Vec<String>, max: &Vec<usize>) -> (r: (Vec<Vec<String>>, Vec<Option<Plot>>, usize))
    requires
        hea@.len() >= max@.len(),
    ensures
        pages_of(r.0@) == wrap_header(texts(hea@), max@),
        r.1@ == Seq::new(max@.len(), |i: int| None::<Plot>),
        r.2 == tallest(wrap_header(texts(hea@), max@)),
{
    let mut cells: Vec<Vec<String>> = Vec::new();
    let mut charts: Vec<Option<Plot>> = Vec::new();
    let mut height: usize = 1;
    let mut i: usize = 0;
    while i < max.len()
        invariant
            i <= max@.len(),
            hea@.len() >= max@.len(),
            cells@.len() == i,
            pages_of(cells@) == wrap_header(texts(hea@), max@.take(i as int)),
            charts@ == Seq::new(i as nat, |i: int| None::<Plot>),
            height == tallest(wrap_header(texts(hea@), max@.take(i as int))),
        decreases max@.len() - i,
    {
        let ghost before = wrap_header(texts(hea@), max@.take(i as int));
        let lines: Vec<String> = sub_strings(hea[i].as_str(), max[i]);
        if lines.len() > height {
            height = lines.len();
        }
        let ghost earlier = cells@;
        cells.push(lines);
        charts.push(None);
        i += 1;
        proof {
            let after = wrap_header(texts(hea@), max@.take(i as int));
            assert(after.drop_last() =~= before);
            assert forall|j: int| 0 <= j < after.len() implies pages_of(cells@)[j]
                == after[j] by {
                if j < i - 1 {
                    assert(pages_of(earlier)[j] == before[j]);
                    assert(cells@[j] == earlier[j]);
                }
            }
            assert(pages_of(cells@) =~= after);
            assert(charts@ =~= Seq::new(i as nat, |i: int| None::<Plot>));
        }
    }
    proof {
        assert(max@.take(i as int) =~= max@);
    }
    (cells, charts, height)
}

impl Table {
    /// The rule that closes the table at the cursor.
    pub fn table_full_line(&self) -> (op: Op)
        ensures
            op.step() == (Step::Rule { at: self@.pos }),
    {
        Op::Rule { at: self.pos }
    }

    /// Draws the caption at the cursor, where there is one and it is asked
    /// for, and moves the cursor behind it.
    pub fn caption(&mut self, add: bool) -> (ops: Vec<Op>)
        requires
            old(self).pos <= 0xffff_ffff_ffff_ffff_ffff_ffff_ffff,
        ensures
            steps(ops@) == old(self)@.caption_steps(add),
            final(self)@ == old(self)@.titled(add),
    {
        let mut ops: Vec<Op> = Vec::new();
        if self.cap.as_str().unicode_len() == 0 || !add {
            assert(steps(ops@) =~= old(self)@.caption_steps(add));
            return ops;
        }
        let lines: Vec<String> = sub_strings(self.cap.as_str(), self.capmax);
        let count: usize = lines.len();
        if count > 0 {
            ops.push(Op::Caption { lines, at: self.pos });
        }
        assert(steps(ops@) =~= old(self)@.caption_steps(add));
        self.pos = self.pos + (count as u128);
        ops
    }

    /// Draws the row `line` and moves the cursor behind it. A row that no
    /// longer fits on the page goes to a new page, under the caption, if
    /// `add_caption` asks for it, and the column names.
    pub fn row(
        &mut self,
        line: &Vec<CellContent>,
        fill: (u16, u16, u16),
        indent: bool,
        add_caption: bool,
    ) -> (ops: Vec<Op>)
        requires
            old(self)@.wf(),
            line@.len() >= old(self).max@.len(),
        ensures
            steps(ops@) == old(self)@.row_steps(views(line@), fill, indent, add_caption),
            final(self)@ == old(self)@.next(views(line@), add_caption),
            final(self)@.wf(),
    {
        let (cells, charts, height) = wrap_line(line, &self.max);
        let capacity: usize = if self.turned { self.rest } else { self.first };
        let mut ops: Vec<Op> = Vec::new();
        if height > capacity || self.pos > ((capacity - height) as u128) {
            ops.push(Op::Rule { at: self.pos });
            ops.push(Op::NewPage);
            let mut above: usize = 0;
            if self.cap.as_str().unicode_len() > 0 && add_caption {
                let lines: Vec<String> = sub_strings(self.cap.as_str(), self.capmax);
                above = lines.len();
                if above > 0 {
                    ops.push(Op::Caption { lines, at: 0 });
                }
            }
            let (names, none, names_height) = wrap_names(&self.hea, &self.max);
            ops.push(
                Op::Row {
                    cells: names,
                    charts: none,
                    height: names_height,
                    at: above as u128,
                    fill: tint(&self.col.header_color),
                    indent: false,
                    header: true,
                    merged: self.merged,
                },
            );
            let at: u128 = (above as u128) + (names_height as u128);
            ops.push(
                Op::Row {
                    cells,
                    charts,
                    height,
                    at,
                    fill,
                    indent,
                    header: false,
                    merged: self.merged,
                },
            );
            assert(steps(ops@) =~= old(self)@.row_steps(views(line@), fill, indent, add_caption));
            self.turned = true;
            self.pos = at + (height as u128);
        } else {
            let at: u128 = self.pos;
            ops.push(
                Op::Row {
                    cells,
                    charts,
                    height,
                    at,
                    fill,
                    indent,
                    header: false,
                    merged: self.merged,
                },
            );
            assert(steps(ops@) =~= old(self)@.row_steps(views(line@), fill, indent, add_caption));
            self.pos = at + (height as u128);
        }
        ops
    }

    /// A new table on its first page, of which `first` lines are free, with
    /// its caption and its column names drawn.
    pub fn new(
        fnt: i64,
        max: Vec<usize>,
        hea: Vec<String>,
        cap: String,
        capmax: usize,
        first: usize,
        rest: usize,
    ) -> (r: (Table, Vec<Op>))
        requires
            hea@.len() >= max@.len(),
        ensures
            ({
                let start = Layout::blank(fnt, max@, texts(hea@), cap@, capmax, first, rest);
                &&& steps(r.1@) == start.caption_steps(true) + start.titled(true).row_steps(
                    header_line(texts(hea@)),
                    rgb_of(Tint::DarkGrey),
                    false,
                    false,
                )
                &&& r.0@ == start.titled(true).next(header_line(texts(hea@)), false)
                &&& r.0@.wf()
            }),
    {
        let mut header: Vec<CellContent> = Vec::new();
        assert(views(header@) =~= header_line(texts(hea@.take(0))));
        let mut i: usize = 0;
        while i < hea.len()
            invariant
                i <= hea@.len(),
                header@.len() == i,
                views(header@) == header_line(texts(hea@.take(i as int))),
            decreases hea@.len() - i,
        {
            let ghost before = header@;
            header.push(CellContent::String(hea[i].clone()));
            i += 1;
            proof {
                let want = header_line(texts(hea@.take(i as int)));
                assert forall|j: int| 0 <= j < want.len() implies views(header@)[j]
                    == want[j] by {
                    if j < i - 1 {
                        assert(header@[j] == before[j]);
                        assert(views(before)[j] == header_line(texts(hea@.take(i - 1)))[j]);
                    }
                }
                assert(views(header@) =~= want);
            }
        }
        proof {
            assert(hea@.take(i as int) =~= hea@);
        }
        let col = TableColors {
            header_color: Tint::DarkGrey,
            fill_color: Tint::White,
            outline_color: Tint::Black,
            good_color: Tint::Green,
            bad_color: Tint::Red,
            neutral_color: Tint::White,
        };
        let mut table = Table {
            fnt,
            max,
            hea,
            col,
            cap,
            capmax,
            first,
            rest,
            turned: false,
            pos: 0,
            merged: false,
        };
        let mut ops: Vec<Op> = table.caption(true);
        let ghost drawn = steps(ops@);
        let mut more: Vec<Op> = table.row(&header, tint(&Tint::DarkGrey), false, false);
        let ghost rest_steps = steps(more@);
        ops.append(&mut more);
        assert(steps(ops@) =~= drawn + rest_steps);
        (table, ops)
    }

    /// Merges the first two columns, and gives the characters that the first
    /// one had.
    pub fn merge(&mut self) -> (first: usize)
        requires
            old(self).max@.len() >= 2,
        ensures
            first == old(self).max@[0],
            final(self)@ == old(self)@.widened(),
    {
        let first: usize = self.max[0];
        let second: usize = self.max[1];
        let both: usize = if first > usize::MAX - second {
            usize::MAX
        } else {
            first + second
        };
        self.max.set(0, both);
        self.merged = true;
        first
    }

    /// Takes the first two columns apart again.
    pub fn unmerge(&mut self, first: usize)
        requires
            old(self).max@.len() >= 1,
        ensures
            final(self)@ == old(self)@.narrowed(first),
    {
        self.max.set(0, first);
        self.merged = false;
    }
}

/// Rows change the cursor and the page of a table, and nothing else.
pub proof fn lemma_rows_keep_the_columns(table: Layout, rows: Seq<Seq<CellView>>, add_caption: bool)
    ensures
        table.after(rows, add_caption) == (Layout {
            pos: table.after(rows, add_caption).pos,
            turned: table.after(rows, add_caption).turned,
            ..table
        }),
        table.wf() ==> table.after(rows, add_caption).wf(),
    decreases rows.len(),
{
    if rows.len() > 0 {
        lemma_rows_keep_the_columns(table, rows.drop_last(), add_caption);
    }
}

/// A row that no longer fits starts a new page, and only such a row does; the
/// new page has the column names under its caption, wrapped to the columns,
/// and the lines of each name in a row are that name.
pub proof fn lemma_new_page_repeats_names(
    table: Layout,
    line: Seq<CellView>,
    fill: (u16, u16, u16),
    indent: bool,
    add_caption: bool,
)
    requires
        table.wf(),
    ensures
        ({
            let drawn = table.row_steps(line, fill, indent, add_caption);
            let caption = table.caption_lines(add_caption);
            let fits = !table.overflows(tallest(wrap_row(line, table.max)));
            &&& fits ==> drawn.len() == 1 && forall|i: int|
                0 <= i < drawn.len() ==> drawn[i] != Step::NewPage
            &&& !fits ==> drawn[1] == Step::NewPage && drawn[drawn.len() - 2]
                == table.header_step(caption.len()) && drawn.len() == (if caption.len() == 0 {
                4int
            } else {
                5int
            })
            &&& forall|i: int|
                0 <= i < table.max.len() ==> glued(#[trigger] wrap_header(table.hea, table.max)[i])
                    == table.hea[i]
        }),
{
    assert forall|i: int| 0 <= i < table.max.len() implies glued(
        #[trigger] wrap_header(table.hea, table.max)[i],
    ) == table.hea[i] by {
        lemma_chunks(table.hea[i], piece_len(table.max[i]));
    }
}

/// Rows that take more lines together than are left on the first page start
/// a new page.
pub proof fn lemma_too_many_rows_turn_the_page(
    table: Layout,
    rows: Seq<Seq<CellView>>,
    add_caption: bool,
)
    requires
        rows.len() > 0,
        table.pos + table.heights(rows) > table.first,
    ensures
        table.after(rows, add_caption).turned,
{
    lemma_rows_that_fit(table, rows, add_caption);
}

/// While no page is turned the cursor moves on by the height of each row,
/// and the columns stay as they are.
proof fn lemma_rows_that_fit(table: Layout, rows: Seq<Seq<CellView>>, add_caption: bool)
    ensures
        table.after(rows, add_caption).max == table.max,
        table.after(rows, add_caption).first == table.first,
        !table.after(rows, add_caption).turned ==> !table.turned && table.after(
            rows,
            add_caption,
        ).pos == table.pos + table.heights(rows) && (rows.len() > 0 ==> table.pos
            + table.heights(rows) <= table.first),
    decreases rows.len(),
{
    if rows.len() > 0 {
        lemma_rows_that_fit(table, rows.drop_last(), add_caption);
    }
}

} // verus!
