//! The options file, row by row: what each option sets, which values it
//! takes, and what is told of a value that cannot be used.
use crate::config::{PDFTimestamp, QTableProps};
use crate::group::GroupBy;
use crate::limits::Threshold;
use crate::pdf::Paper;
use crate::qtable::{
    default_columns, shapes, standard, Align, Column, Filter, Kind, Mark, Marks, Order, Show,
    Shows,
};
use crate::text::{decimal, digits, same};
use vstd::prelude::*;
use vstd::string::StringExecFns;

verus! {

/// An option.
#[derive(Debug, Copy, Clone, PartialEq, Eq, Structural)]
pub enum Opt {
    Caption,
    CaptionWhere,
    Paper,
    PdfFolder,
    PdfFile,
    PdfTimestamp,
    Order,
    FontSize,
    HistoBins,
    Filter,
    GroupNames,
    Align,
    Show,
    Mark,
    NanString,
    SigDigits,
    FloatLimit,
    SpecYieldLimit,
    CtrlYieldLimit,
    CpkLimit,
    GroupBy,
    LongGroupNames,
    Column,
    /// None of the options.
    Unknown,
}

/// The option that `text` names.
pub open spec fn opt_of(text: Seq<char>) -> Opt {
    if text == "caption"@ {
        Opt::Caption
    } else if text == "captionwhere"@ {
        Opt::CaptionWhere
    } else if text == "paper"@ {
        Opt::Paper
    } else if text == "pdffolder"@ {
        Opt::PdfFolder
    } else if text == "pdffile"@ {
        Opt::PdfFile
    } else if text == "pdftimestamp"@ {
        Opt::PdfTimestamp
    } else if text == "order"@ {
        Opt::Order
    } else if text == "fontsize"@ {
        Opt::FontSize
    } else if text == "histobins"@ {
        Opt::HistoBins
    } else if text == "filter"@ {
        Opt::Filter
    } else if text == "groupnames"@ {
        Opt::GroupNames
    } else if text == "align"@ {
        Opt::Align
    } else if text == "show"@ {
        Opt::Show
    } else if text == "mark"@ {
        Opt::Mark
    } else if text == "nanstring"@ {
        Opt::NanString
    } else if text == "sigdigits"@ {
        Opt::SigDigits
    } else if text == "floatlimit"@ {
        Opt::FloatLimit
    } else if text == "specyieldlimit"@ {
        Opt::SpecYieldLimit
    } else if text == "ctrlyieldlimit"@ {
        Opt::CtrlYieldLimit
    } else if text == "cpklimit"@ {
        Opt::CpkLimit
    } else if text == "groupby"@ {
        Opt::GroupBy
    } else if text == "longgroupnames"@ {
        Opt::LongGroupNames
    } else if text == "column"@ {
        Opt::Column
    } else {
        Opt::Unknown
    }
}

/// The option that `text` names.
pub fn option(text: &str) -> (opt: Opt)
    ensures
        opt == opt_of(text@),
{
    if same(text, "caption") {
        Opt::Caption
    } else if same(text, "captionwhere") {
        Opt::CaptionWhere
    } else if same(text, "paper") {
        Opt::Paper
    } else if same(text, "pdffolder") {
        Opt::PdfFolder
    } else if same(text, "pdffile") {
        Opt::PdfFile
    } else if same(text, "pdftimestamp") {
        Opt::PdfTimestamp
    } else if same(text, "order") {
        Opt::Order
    } else if same(text, "fontsize") {
        Opt::FontSize
    } else if same(text, "histobins") {
        Opt::HistoBins
    } else if same(text, "filter") {
        Opt::Filter
    } else if same(text, "groupnames") {
        Opt::GroupNames
    } else if same(text, "align") {
        Opt::Align
    } else if same(text, "show") {
        Opt::Show
    } else if same(text, "mark") {
        Opt::Mark
    } else if same(text, "nanstring") {
        Opt::NanString
    } else if same(text, "sigdigits") {
        Opt::SigDigits
    } else if same(text, "floatlimit") {
        Opt::FloatLimit
    } else if same(text, "specyieldlimit") {
        Opt::SpecYieldLimit
    } else if same(text, "ctrlyieldlimit") {
        Opt::CtrlYieldLimit
    } else if same(text, "cpklimit") {
        Opt::CpkLimit
    } else if same(text, "groupby") {
        Opt::GroupBy
    } else if same(text, "longgroupnames") {
        Opt::LongGroupNames
    } else if same(text, "column") {
        Opt::Column
    } else {
        Opt::Unknown
    }
}

/// The values that an option takes, as they are told.
pub open spec fn allowed(opt: Opt) -> Seq<char> {
    match opt {
        Opt::Caption => "a text"@,
        Opt::CaptionWhere => "firstpage, everypage"@,
        Opt::Paper => "a4portrait, a4landscape, letterportrait, letterlandscape"@,
        Opt::PdfFolder => "a folder"@,
        Opt::PdfFile => "a file name"@,
        Opt::PdfTimestamp => "local, utc, none"@,
        Opt::Order => "bybadgood, bynumber"@,
        Opt::FontSize => "a whole number"@,
        Opt::HistoBins => "a whole number from 3 on"@,
        Opt::Filter => "iqr, zscore"@,
        Opt::GroupNames => "numbers, longnames"@,
        Opt::Align => "control, fit, spec, target"@,
        Opt::Show => "control, spec, target"@,
        Opt::Mark => "specyield, ctrlyield, cpk"@,
        Opt::NanString => "a text"@,
        Opt::SigDigits => "a whole number"@,
        Opt::FloatLimit => "a number"@,
        Opt::SpecYieldLimit => "a number from 0 to 100"@,
        Opt::CtrlYieldLimit => "a number from 0 to 100"@,
        Opt::CpkLimit => "a number from 0 to 10"@,
        Opt::GroupBy => "names or numbers of columns"@,
        Opt::LongGroupNames => "nothing"@,
        Opt::Column => "number, parameter, count, mean, median, variance, stddev, min, max, range, specyield, ctrlyield, k, cpk, cp, percentile, p25, p75, lsl, tgt, usl, lcl, ucl, boxplot, histogram, cpkplot"@,
        Opt::Unknown => Seq::empty(),
    }
}

/// The values that an option takes, as they are told.
fn allowed_text(opt: Opt) -> (text: &'static str)
    ensures
        text@ == allowed(opt),
{
    proof {
        reveal_strlit("");
    }
    match opt {
        Opt::Caption => "a text",
        Opt::CaptionWhere => "firstpage, everypage",
        Opt::Paper => "a4portrait, a4landscape, letterportrait, letterlandscape",
        Opt::PdfFolder => "a folder",
        Opt::PdfFile => "a file name",
        Opt::PdfTimestamp => "local, utc, none",
        Opt::Order => "bybadgood, bynumber",
        Opt::FontSize => "a whole number",
        Opt::HistoBins => "a whole number from 3 on",
        Opt::Filter => "iqr, zscore",
        Opt::GroupNames => "numbers, longnames",
        Opt::Align => "control, fit, spec, target",
        Opt::Show => "control, spec, target",
        Opt::Mark => "specyield, ctrlyield, cpk",
        Opt::NanString => "a text",
        Opt::SigDigits => "a whole number",
        Opt::FloatLimit => "a number",
        Opt::SpecYieldLimit => "a number from 0 to 100",
        Opt::CtrlYieldLimit => "a number from 0 to 100",
        Opt::CpkLimit => "a number from 0 to 10",
        Opt::GroupBy => "names or numbers of columns",
        Opt::LongGroupNames => "nothing",
        Opt::Column => "number, parameter, count, mean, median, variance, stddev, min, max, range, specyield, ctrlyield, k, cpk, cp, percentile, p25, p75, lsl, tgt, usl, lcl, ucl, boxplot, histogram, cpkplot",
        Opt::Unknown => "",
    }
}

/// What the column that `text` names shows.
pub open spec fn column_kind_of(text: Seq<char>, num: u64, den: u64) -> Option<Kind> {
    if text == "number"@ {
        Some(Kind::Number)
    } else if text == "parameter"@ {
        Some(Kind::Parameter)
    } else if text == "count"@ {
        Some(Kind::Count)
    } else if text == "mean"@ {
        Some(Kind::Mean)
    } else if text == "median"@ {
        Some(Kind::Median)
    } else if text == "variance"@ {
        Some(Kind::Variance)
    } else if text == "stddev"@ {
        Some(Kind::Sdev)
    } else if text == "min"@ {
        Some(Kind::Min)
    } else if text == "max"@ {
        Some(Kind::Max)
    } else if text == "range"@ {
        Some(Kind::Range)
    } else if text == "specyield"@ {
        Some(Kind::SpecYield)
    } else if text == "ctrlyield"@ {
        Some(Kind::CtrlYield)
    } else if text == "k"@ {
        Some(Kind::K)
    } else if text == "cpk"@ {
        Some(Kind::Cpk)
    } else if text == "cp"@ {
        Some(Kind::Cp)
    } else if text == "percentile"@ {
        Some(Kind::Percentile(num, den))
    } else if text == "p25"@ {
        Some(Kind::P25)
    } else if text == "p75"@ {
        Some(Kind::P75)
    } else if text == "lsl"@ {
        Some(Kind::LSL)
    } else if text == "tgt"@ {
        Some(Kind::TGT)
    } else if text == "usl"@ {
        Some(Kind::USL)
    } else if text == "lcl"@ {
        Some(Kind::LCL)
    } else if text == "ucl"@ {
        Some(Kind::UCL)
    } else if text == "boxplot"@ {
        Some(Kind::Boxplot)
    } else if text == "histogram"@ {
        Some(Kind::Histogram)
    } else if text == "cpkplot"@ {
        Some(Kind::Cpkplot)
    } else {
        None
    }
}

/// What the column that `text` names shows.
fn column_kind(text: &str, num: u64, den: u64) -> (kind: Option<Kind>)
    ensures
        kind == column_kind_of(text@, num, den),
{
    if same(text, "number") {
        Some(Kind::Number)
    } else if same(text, "parameter") {
        Some(Kind::Parameter)
    } else if same(text, "count") {
        Some(Kind::Count)
    } else if same(text, "mean") {
        Some(Kind::Mean)
    } else if same(text, "median") {
        Some(Kind::Median)
    } else if same(text, "variance") {
        Some(Kind::Variance)
    } else if same(text, "stddev") {
        Some(Kind::Sdev)
    } else if same(text, "min") {
        Some(Kind::Min)
    } else if same(text, "max") {
        Some(Kind::Max)
    } else if same(text, "range") {
        Some(Kind::Range)
    } else if same(text, "specyield") {
        Some(Kind::SpecYield)
    } else if same(text, "ctrlyield") {
        Some(Kind::CtrlYield)
    } else if same(text, "k") {
        Some(Kind::K)
    } else if same(text, "cpk") {
        Some(Kind::Cpk)
    } else if same(text, "cp") {
        Some(Kind::Cp)
    } else if same(text, "percentile") {
        Some(Kind::Percentile(num, den))
    } else if same(text, "p25") {
        Some(Kind::P25)
    } else if same(text, "p75") {
        Some(Kind::P75)
    } else if same(text, "lsl") {
        Some(Kind::LSL)
    } else if same(text, "tgt") {
        Some(Kind::TGT)
    } else if same(text, "usl") {
        Some(Kind::USL)
    } else if same(text, "lcl") {
        Some(Kind::LCL)
    } else if same(text, "ucl") {
        Some(Kind::UCL)
    } else if same(text, "boxplot") {
        Some(Kind::Boxplot)
    } else if same(text, "histogram") {
        Some(Kind::Histogram)
    } else if same(text, "cpkplot") {
        Some(Kind::Cpkplot)
    } else {
        None
    }
}

/// The column that shows `kind` under `name`, `width` wide.
fn column_of(kind: Kind, name: String, width: u32) -> (column: Column)
    ensures
        column.kind() == kind,
        column.name() == name@,
        column.width() == width,
{
    match kind {
        Kind::Number => Column::Number(name, width),
        Kind::Parameter => Column::Parameter(name, width),
        Kind::Count => Column::Count(name, width),
        Kind::Mean => Column::Mean(name, width),
        Kind::Median => Column::Median(name, width),
        Kind::Variance => Column::Variance(name, width),
        Kind::Sdev => Column::Sdev(name, width),
        Kind::Min => Column::Min(name, width),
        Kind::Max => Column::Max(name, width),
        Kind::Range => Column::Range(name, width),
        Kind::SpecYield => Column::SpecYield(name, width),
        Kind::CtrlYield => Column::CtrlYield(name, width),
        Kind::K => Column::K(name, width),
        Kind::Cpk => Column::Cpk(name, width),
        Kind::Cp => Column::Cp(name, width),
        Kind::Percentile(num, den) => Column::Percentile(name, width, num, den),
        Kind::P25 => Column::P25(name, width),
        Kind::P75 => Column::P75(name, width),
        Kind::LSL => Column::LSL(name, width),
        Kind::TGT => Column::TGT(name, width),
        Kind::USL => Column::USL(name, width),
        Kind::LCL => Column::LCL(name, width),
        Kind::UCL => Column::UCL(name, width),
        Kind::Boxplot => Column::Boxplot(name, width),
        Kind::Histogram => Column::Histogram(name, width),
        Kind::Cpkplot => Column::Cpkplot(name, width),
    }
}

/// One row of an options file: the texts of its cells, and the numbers that
/// they name.
#[derive(Debug, Clone, PartialEq)]
pub struct OptionRow {
    /// Whether the row is in use: its cell of use is not empty.
    pub used: bool,
    /// The row as it is told in a message.
    pub record: String,
    /// The option, in lower case and trimmed.
    pub opt: String,
    /// The value, in lower case and trimmed.
    pub val: String,
    /// The value as it is written.
    pub val_ori: String,
    /// The name, trimmed.
    pub nam: String,
    /// The width, trimmed.
    pub wid: String,
    /// The arguments: the cells from the column of arguments on that are
    /// not empty.
    pub args: Vec<String>,
    /// The value, cut at each bar `|`, each part trimmed.
    pub parts: Vec<String>,
    /// The cells beside those of use and of the option, each once, without
    /// the empty ones; with each the number it names, if it names one.
    pub cells: Vec<(String, Option<usize>)>,
    /// The whole number that the value names.
    pub val_int: Option<i64>,
    /// The count that the value names.
    pub val_count: Option<usize>,
    /// The level of the magnitude that the value names.
    pub val_level: Option<i64>,
    /// The magnitude that the value names, as a fraction.
    pub val_percent: Option<Threshold>,
    /// The level of the number that the name names.
    pub nam_level: Option<i64>,
    /// The width that the cell of the width names, in hundredths of a percent.
    pub wid_width: Option<u32>,
    /// The first argument as a fraction, if it names a number.
    pub arg: Option<(u64, u64)>,
}

/// The levels of the quantities that options fall back on.
#[derive(Debug, Copy, Clone, PartialEq, Eq, Structural)]
pub struct Defaults {
    /// The factor of an outlier filter, one and a half.
    pub factor: i64,
    /// The cutoff, the greatest finite quantity.
    pub cutoff: i64,
    /// The capability threshold, 1.67.
    pub cpk: i64,
    /// The greatest capability threshold, ten.
    pub cpk_most: i64,
}

/// The options as they stand while the rows of an options file are read.
#[derive(Debug)]
pub struct Config {
    /// The path of the options file, for messages.
    pub cfgpath: String,
    pub defaults: Defaults,
    pub props: QTableProps,
    pub columns: Vec<Column>,
    /// The reference lines that the rows have named so far.
    pub show: Shows,
    /// The stages that the rows have named so far.
    pub mark: Marks,
}

/// The message for a row in use without an option.
pub open spec fn opt_empty(record: Seq<char>, cfgpath: Seq<char>) -> Seq<char> {
    "column OPT in row '"@ + record + "'\n       in CSV configfile '"@ + cfgpath
        + "' is checked and cannot be empty."@
}

/// The message for an option that is none.
pub open spec fn opt_unknown(opt: Seq<char>, cfgpath: Seq<char>) -> Seq<char> {
    "unknown OPT '"@ + opt + "' in configfile '"@ + cfgpath + "'."@
}

/// The message for an option without the value it needs.
pub open spec fn val_empty(opt: Seq<char>, cfgpath: Seq<char>) -> Seq<char> {
    "column VAL for OPT '"@ + opt + "' in CSV configfile '"@ + cfgpath
        + "' cannot be empty.\n              allowed VAL: \""@ + allowed(opt_of(opt)) + "\""@
}

/// The message for a value that an option does not take.
pub open spec fn val_unknown(val: Seq<char>, opt: Seq<char>, cfgpath: Seq<char>) -> Seq<char> {
    "Unknown VAL '"@ + val + "' for OPT '"@ + opt + "' in configfile '"@ + cfgpath
        + "'.\n       Allowed VAL: "@ + allowed(opt_of(opt))
}

/// The message for a value in whose place `instead` is used.
pub open spec fn val_invalid(val: Seq<char>, opt: Seq<char>, instead: Seq<char>) -> Seq<char> {
    "VAL '"@ + val + "' for OPT '"@ + opt + "' is invalid, using '"@ + instead + "' instead."@
}

/// The message for a count of bins under three.
pub open spec fn bins_too_few(v: usize) -> Seq<char> {
    "number of bins for histogram must be >= 3. '"@ + digits(v as nat)
        + "' is too low, using default value '11' instead."@
}

/// The message for a factor of a filter that is no number. It names the
/// factor one and a half for the interquartile filter and two and a half for
/// the other; one and a half is used for both.
pub open spec fn factor_invalid(val: Seq<char>, nam: Seq<char>) -> Seq<char> {
    "In outliers "@ + val + ": '"@ + nam + "' is not a number, using "@ + (if val == "iqr"@ {
        "1.5"@
    } else {
        "2.5"@
    }) + " instead"@
}

/// The message for a width that is no number.
pub open spec fn width_invalid(wid: Seq<char>, nam: Seq<char>) -> Seq<char> {
    "WID '"@ + wid + "' for column   '"@ + nam + "' is invalid, using '7' instead."@
}

/// The message for an argument that is no number.
pub open spec fn arg_invalid(arg: Seq<char>, opt: Seq<char>, cfgpath: Seq<char>) -> Seq<char> {
    "invalid ARG '"@ + arg + "' for column '"@ + opt + "' in configfile "@ + cfgpath + "."@
}

/// The greatest finite quantity, written out.
pub open spec fn greatest_written() -> Seq<char> {
    "179769313486231570000000000000000000000000000000000000000000000000000000000000000000000000000000000000000000000000000000000000000000000000000000000000000000000000000000000000000000000000000000000000000000000000000000000000000000000000000000000000000000000000000000000000000000000000000000000000000000000000000"@
}

/// Whether an option may stand without a value.
pub open spec fn may_be_empty(opt: Opt) -> bool {
    opt == Opt::PdfFolder || opt == Opt::LongGroupNames || opt == Opt::NanString || opt
        == Opt::GroupBy
}

/// The reference line that `text` names.
pub open spec fn show_of(text: Seq<char>) -> Option<Show> {
    if text == "control"@ {
        Some(Show::ControlLimits)
    } else if text == "spec"@ {
        Some(Show::SpecLimits)
    } else if text == "target"@ {
        Some(Show::Targets)
    } else {
        None
    }
}

/// The stage that `text` names.
pub open spec fn mark_of(text: Seq<char>) -> Option<Mark> {
    if text == "specyield"@ {
        Some(Mark::SpecYield)
    } else if text == "ctrlyield"@ {
        Some(Mark::ControlYield)
    } else if text == "cpk"@ {
        Some(Mark::Cpk)
    } else {
        None
    }
}

/// `set` with `line`.
pub open spec fn with_show(set: Shows, line: Show) -> Shows {
    match line {
        Show::SpecLimits => Shows { spec_limits: true, ..set },
        Show::ControlLimits => Shows { control_limits: true, ..set },
        Show::Targets => Shows { targets: true, ..set },
    }
}

/// `set` with `stage`.
pub open spec fn with_mark(set: Marks, stage: Mark) -> Marks {
    match stage {
        Mark::SpecYield => Marks { spec_yield: true, ..set },
        Mark::ControlYield => Marks { control_yield: true, ..set },
        Mark::Cpk => Marks { cpk: true, ..set },
    }
}

/// `set` with the reference lines that `parts` name; none if one of them
/// names none.
pub open spec fn shows_of(parts: Seq<String>, set: Shows) -> Option<Shows>
    decreases parts.len(),
{
    if parts.len() == 0 {
        Some(set)
    } else {
        match (shows_of(parts.drop_last(), set), show_of(parts.last()@)) {
            (Some(before), Some(line)) => Some(with_show(before, line)),
            _ => None,
        }
    }
}

/// `set` with the stages that `parts` name; none if one of them names none.
pub open spec fn marks_of(parts: Seq<String>, set: Marks) -> Option<Marks>
    decreases parts.len(),
{
    if parts.len() == 0 {
        Some(set)
    } else {
        match (marks_of(parts.drop_last(), set), mark_of(parts.last()@)) {
            (Some(before), Some(stage)) => Some(with_mark(before, stage)),
            _ => None,
        }
    }
}

/// The columns to group by that `cells` name: by number where a cell names
/// one, else by name.
pub open spec fn selectors(cells: Seq<(String, Option<usize>)>) -> Seq<GroupBy> {
    Seq::new(
        cells.len(),
        |i: int|
            match cells[i].1 {
                Some(u) => GroupBy::ColNumber(u),
                None => GroupBy::ColName(cells[i].0),
            },
    )
}

/// A yield threshold as it is taken: a hundred percent at most.
pub open spec fn capped(t: Threshold) -> Threshold {
    if t.den == 0 || t.num > 100 * t.den {
        Threshold { num: 100, den: 1 }
    } else {
        t
    }
}

/// Whether only the options differ between two states, and of them only
/// what `field` tells: `after` with the options of `before` put back is
/// `before`.
pub open spec fn only_props(before: Config, after: Config, same_but: QTableProps) -> bool {
    after.props == same_but && after.columns == before.columns && after.show == before.show
        && after.mark == before.mark && after.cfgpath == before.cfgpath && after.defaults
        == before.defaults
}

/// Whether `after` and `said` are what the row `row` makes of `before`. A
/// row that is not in use changes nothing. A row in use needs an option, and
/// a value unless the option may stand without; then the option sets what it
/// names, or refuses a value it does not take; a number that cannot be read
/// is replaced, which `said` tells.
pub open spec fn applied(
    before: Config,
    row: OptionRow,
    after: Config,
    said: Result<Option<Seq<char>>, Seq<char>>,
) -> bool {
    let opt = opt_of(row.opt@);
    let path = before.cfgpath@;
    let p = before.props;
    let q = after.props;
    let unknown = Err::<Option<Seq<char>>, Seq<char>>(val_unknown(row.val@, row.opt@, path));
    let quiet = Ok::<Option<Seq<char>>, Seq<char>>(None);
    if !row.used {
        after == before && said == quiet
    } else if row.opt@.len() == 0 {
        said == Err::<Option<Seq<char>>, Seq<char>>(opt_empty(row.record@, path))
    } else if opt == Opt::Unknown {
        said == Err::<Option<Seq<char>>, Seq<char>>(opt_unknown(row.opt@, path))
    } else if row.val_ori@.len() == 0 && !may_be_empty(opt) {
        said == Err::<Option<Seq<char>>, Seq<char>>(val_empty(row.opt@, path))
    } else {
        match opt {
            Opt::Caption => said == quiet && q.caption@ == row.val@ && only_props(
                before,
                after,
                QTableProps { caption: q.caption, ..p },
            ),
            Opt::CaptionWhere => if row.val@ == "firstpage"@ {
                said == quiet && only_props(
                    before,
                    after,
                    QTableProps { captioneverypage: false, ..p },
                )
            } else if row.val@ == "everypage"@ {
                said == quiet && only_props(
                    before,
                    after,
                    QTableProps { captioneverypage: true, ..p },
                )
            } else {
                said == unknown
            },
            Opt::Paper => if row.val@ == "a4portrait"@ {
                said == quiet && only_props(before, after, QTableProps { paper: Paper::A4Portrait, ..p })
            } else if row.val@ == "a4landscape"@ {
                said == quiet && only_props(before, after, QTableProps { paper: Paper::A4Landscape, ..p })
            } else if row.val@ == "letterportrait"@ {
                said == quiet && only_props(
                    before,
                    after,
                    QTableProps { paper: Paper::LetterPortrait, ..p },
                )
            } else if row.val@ == "letterlandscape"@ {
                said == quiet && only_props(
                    before,
                    after,
                    QTableProps { paper: Paper::LetterLandscape, ..p },
                )
            } else {
                said == unknown
            },
            Opt::PdfFolder => said == quiet && q.pdffolder@ == (if row.val_ori@.len() == 0 {
                "."@
            } else {
                row.val_ori@
            }) && only_props(before, after, QTableProps { pdffolder: q.pdffolder, ..p }),
            Opt::PdfFile => said == quiet && q.pdffile@ == row.val_ori@ && only_props(
                before,
                after,
                QTableProps { pdffile: q.pdffile, ..p },
            ),
            Opt::PdfTimestamp => said == quiet && only_props(
                before,
                after,
                QTableProps {
                    pdftimestamp: if row.val@ == "local"@ {
                        PDFTimestamp::Local
                    } else if row.val@ == "utc"@ {
                        PDFTimestamp::UTC
                    } else {
                        PDFTimestamp::Off
                    },
                    ..p
                },
            ),
            Opt::Order => if row.val@ == "bybadgood"@ {
                said == quiet && only_props(before, after, QTableProps { order: Order::ByBadGood, ..p })
            } else if row.val@ == "bynumber"@ {
                said == quiet && only_props(before, after, QTableProps { order: Order::ByNumber, ..p })
            } else {
                said == unknown
            },
            Opt::FontSize => match row.val_int {
                Some(v) => said == quiet && only_props(before, after, QTableProps { fontsize: v, ..p }),
                None => said == Ok::<Option<Seq<char>>, Seq<char>>(
                    Some(val_invalid(row.val@, row.opt@, "6"@)),
                ) && only_props(before, after, QTableProps { fontsize: 6, ..p }),
            },
            Opt::HistoBins => match row.val_count {
                Some(v) => if v < 3 {
                    said == Ok::<Option<Seq<char>>, Seq<char>>(Some(bins_too_few(v)))
                        && only_props(before, after, QTableProps { histogram_bins: 11, ..p })
                } else {
                    said == quiet && only_props(
                        before,
                        after,
                        QTableProps { histogram_bins: v, ..p },
                    )
                },
                None => said == Ok::<Option<Seq<char>>, Seq<char>>(
                    Some(val_invalid(row.val@, row.opt@, "11"@)),
                ) && only_props(before, after, QTableProps { histogram_bins: 11, ..p }),
            },
            Opt::Filter => if row.val@ == "iqr"@ || row.val@ == "zscore"@ {
                let k = match row.nam_level {
                    Some(k) => k,
                    None => before.defaults.factor,
                };
                (said == (match row.nam_level {
                    Some(_) => quiet,
                    None => Ok::<Option<Seq<char>>, Seq<char>>(
                        Some(factor_invalid(row.val@, row.nam@)),
                    ),
                })) && only_props(
                    before,
                    after,
                    QTableProps {
                        filter: if row.val@ == "iqr"@ {
                            Filter::IQR(k)
                        } else {
                            Filter::ZScore(k)
                        },
                        ..p
                    },
                )
            } else {
                said == unknown
            },
            Opt::GroupNames => if row.val@ == "numbers"@ {
                said == quiet && only_props(before, after, QTableProps { longgroupnames: false, ..p })
            } else if row.val@ == "longnames"@ {
                said == quiet && only_props(before, after, QTableProps { longgroupnames: true, ..p })
            } else {
                said == unknown
            },
            Opt::Align => if row.val@ == "control"@ {
                said == quiet && only_props(
                    before,
                    after,
                    QTableProps { align: Align::ControlLimits, ..p },
                )
            } else if row.val@ == "fit"@ {
                said == quiet && only_props(before, after, QTableProps { align: Align::FitValues, ..p })
            } else if row.val@ == "spec"@ {
                said == quiet && only_props(before, after, QTableProps { align: Align::SpecLimits, ..p })
            } else if row.val@ == "target"@ {
                said == quiet && only_props(before, after, QTableProps { align: Align::Targets, ..p })
            } else {
                said == unknown
            },
            Opt::Show => match shows_of(row.parts@, before.show) {
                Some(set) => said == quiet && after.show == set && q == (QTableProps {
                    show: if set == (Shows {
                        spec_limits: false,
                        control_limits: false,
                        targets: false,
                    }) {
                        p.show
                    } else {
                        set
                    },
                    ..p
                }) && after.columns == before.columns && after.mark == before.mark
                    && after.cfgpath == before.cfgpath && after.defaults == before.defaults,
                None => said == unknown,
            },
            Opt::Mark => match marks_of(row.parts@, before.mark) {
                Some(set) => said == quiet && after.mark == set && q == (QTableProps {
                    mark: if set == (Marks { spec_yield: false, control_yield: false, cpk: false }) {
                        p.mark
                    } else {
                        set
                    },
                    ..p
                }) && after.columns == before.columns && after.show == before.show
                    && after.cfgpath == before.cfgpath && after.defaults == before.defaults,
                None => said == unknown,
            },
            Opt::NanString => said == quiet && q.nanstring@ == row.val@ && only_props(
                before,
                after,
                QTableProps { nanstring: q.nanstring, ..p },
            ),
            Opt::SigDigits => match row.val_count {
                Some(v) => said == quiet && only_props(before, after, QTableProps { sig_digits: v, ..p }),
                None => said == Ok::<Option<Seq<char>>, Seq<char>>(
                    Some(val_invalid(row.val@, row.opt@, "4"@)),
                ) && only_props(before, after, QTableProps { sig_digits: 4, ..p }),
            },
            Opt::FloatLimit => match row.val_level {
                Some(l) => said == quiet && only_props(before, after, QTableProps { float_limit: l, ..p }),
                None => said == Ok::<Option<Seq<char>>, Seq<char>>(
                    Some(val_invalid(row.val@, row.opt@, greatest_written())),
                ) && only_props(
                    before,
                    after,
                    QTableProps { float_limit: before.defaults.cutoff, ..p },
                ),
            },
            Opt::SpecYieldLimit => match row.val_percent {
                Some(t) => said == quiet && only_props(
                    before,
                    after,
                    QTableProps { spec_yield_limit: capped(t), ..p },
                ),
                None => said == Ok::<Option<Seq<char>>, Seq<char>>(
                    Some(val_invalid(row.val@, row.opt@, "100"@)),
                ) && only_props(
                    before,
                    after,
                    QTableProps { spec_yield_limit: Threshold { num: 100, den: 1 }, ..p },
                ),
            },
            Opt::CtrlYieldLimit => match row.val_percent {
                Some(t) => said == quiet && only_props(
                    before,
                    after,
                    QTableProps { ctrl_yield_limit: capped(t), ..p },
                ),
                None => said == Ok::<Option<Seq<char>>, Seq<char>>(
                    Some(val_invalid(row.val@, row.opt@, "100"@)),
                ) && only_props(
                    before,
                    after,
                    QTableProps { ctrl_yield_limit: Threshold { num: 100, den: 1 }, ..p },
                ),
            },
            Opt::CpkLimit => match row.val_level {
                Some(l) => said == quiet && only_props(
                    before,
                    after,
                    QTableProps {
                        cpk_limit: if l > before.defaults.cpk_most {
                            before.defaults.cpk_most
                        } else {
                            l
                        },
                        ..p
                    },
                ),
                None => said == Ok::<Option<Seq<char>>, Seq<char>>(
                    Some(val_invalid(row.val@, row.opt@, "1.67"@)),
                ) && only_props(before, after, QTableProps { cpk_limit: before.defaults.cpk, ..p }),
            },
            Opt::GroupBy => said == quiet && q.group_by@ == p.group_by@ + selectors(row.cells@)
                && only_props(before, after, QTableProps { group_by: q.group_by, ..p }),
            Opt::LongGroupNames => said == quiet && only_props(
                before,
                after,
                QTableProps { longgroupnames: true, ..p },
            ),
            Opt::Column => {
                let rest = after.props == before.props && after.show == before.show && after.mark
                    == before.mark && after.cfgpath == before.cfgpath && after.defaults
                    == before.defaults;
                let width = match row.wid_width {
                    Some(w) => w,
                    None => 700u32,
                };
                let told = match row.wid_width {
                    Some(_) => quiet,
                    None => Ok::<Option<Seq<char>>, Seq<char>>(
                        Some(width_invalid(row.wid@, row.nam@)),
                    ),
                };
                let fraction = match row.arg {
                    Some(f) => f,
                    None => (0u64, 0u64),
                };
                if row.nam@.len() == 0 || row.wid@.len() == 0 {
                    after == before && said == quiet
                } else {
                    match column_kind_of(row.val@, fraction.0, fraction.1) {
                        None => said == unknown,
                        Some(kind) => if kind is Percentile && row.args@.len() == 0 {
                            rest && after.columns == before.columns && said == told
                        } else if kind is Percentile && row.arg is None {
                            said == Err::<Option<Seq<char>>, Seq<char>>(
                                arg_invalid(row.args@[0]@, row.opt@, path),
                            )
                        } else {
                            rest && said == told && after.columns@.len() == before.columns@.len()
                                + 1 && after.columns@.drop_last() == before.columns@
                                && after.columns@.last().kind() == kind
                                && after.columns@.last().name() == row.nam@
                                && after.columns@.last().width() == width
                        },
                    }
                }
            },
            Opt::Unknown => false,
        }
    }
}

/// Whether `row` is a row of the option `opt` that is in use and has the
/// value it needs.
pub open spec fn ready(row: OptionRow, opt: Opt) -> bool {
    row.used && row.opt@.len() > 0 && opt_of(row.opt@) == opt && (row.val_ori@.len() > 0
        || may_be_empty(opt))
}

/// What was said, as the contracts speak of it.
pub open spec fn heard(said: Result<Option<String>, String>) -> Result<Option<Seq<char>>, Seq<char>> {
    match said {
        Ok(Some(text)) => Ok(Some(text@)),
        Ok(None) => Ok(None),
        Err(text) => Err(text@),
    }
}

/// Five texts in a row.
fn five(a: &str, b: &str, c: &str, d: &str, e: &str) -> (text: String)
    ensures
        text@ == a@ + b@ + c@ + d@ + e@,
{
    let mut text: String = String::from_str(a);
    text.append(b);
    text.append(c);
    text.append(d);
    text.append(e);
    text
}

/// The message for a value that an option does not take.
fn refuse_value(val: &str, opt: &str, cfgpath: &str) -> (message: String)
    ensures
        message@ == val_unknown(val@, opt@, cfgpath@),
{
    let mut message: String = five("Unknown VAL '", val, "' for OPT '", opt, "' in configfile '");
    message.append(cfgpath);
    message.append("'.\n       Allowed VAL: ");
    message.append(allowed_text(option(opt)));
    message
}

/// The message for a value in whose place `instead` is used.
fn replace_value(val: &str, opt: &str, instead: &str) -> (message: String)
    ensures
        message@ == val_invalid(val@, opt@, instead@),
{
    let mut message: String = five("VAL '", val, "' for OPT '", opt, "' is invalid, using '");
    message.append(instead);
    message.append("' instead.");
    message
}

/// `set` with the reference lines that `parts` name.
fn read_shows(parts: &Vec<String>, set: Shows) -> (r: Option<Shows>)
    ensures
        r == shows_of(parts@, set),
{
    let mut out: Shows = set;
    let mut i: usize = 0;
    while i < parts.len()
        invariant
            i <= parts@.len(),
            shows_of(parts@.take(i as int), set) == Some(out),
        decreases parts@.len() - i,
    {
        proof {
            assert(parts@.take(i as int + 1).drop_last() =~= parts@.take(i as int));
        }
        let part: &str = parts[i].as_str();
        if same(part, "control") {
            out.control_limits = true;
        } else if same(part, "spec") {
            out.spec_limits = true;
        } else if same(part, "target") {
            out.targets = true;
        } else {
            proof {
                lemma_shows_stay(parts@, set, i as int + 1);
            }
            return None;
        }
        i += 1;
    }
    proof {
        assert(parts@.take(i as int) =~= parts@);
    }
    Some(out)
}

/// Parts of which the first `n` name no set name none.
proof fn lemma_shows_stay(parts: Seq<String>, set: Shows, n: int)
    requires
        0 <= n <= parts.len(),
        shows_of(parts.take(n), set) is None,
    ensures
        shows_of(parts, set) is None,
    decreases parts.len() - n,
{
    if n < parts.len() {
        assert(parts.take(n + 1).drop_last() =~= parts.take(n));
        lemma_shows_stay(parts, set, n + 1);
    } else {
        assert(parts.take(n) =~= parts);
    }
}

/// `set` with the stages that `parts` name.
fn read_marks(parts: &Vec<String>, set: Marks) -> (r: Option<Marks>)
    ensures
        r == marks_of(parts@, set),
{
    let mut out: Marks = set;
    let mut i: usize = 0;
    while i < parts.len()
        invariant
            i <= parts@.len(),
            marks_of(parts@.take(i as int), set) == Some(out),
        decreases parts@.len() - i,
    {
        proof {
            assert(parts@.take(i as int + 1).drop_last() =~= parts@.take(i as int));
        }
        let part: &str = parts[i].as_str();
        if same(part, "specyield") {
            out.spec_yield = true;
        } else if same(part, "ctrlyield") {
            out.control_yield = true;
        } else if same(part, "cpk") {
            out.cpk = true;
        } else {
            proof {
                lemma_marks_stay(parts@, set, i as int + 1);
            }
            return None;
        }
        i += 1;
    }
    proof {
        assert(parts@.take(i as int) =~= parts@);
    }
    Some(out)
}

/// Parts of which the first `n` name no set name none.
proof fn lemma_marks_stay(parts: Seq<String>, set: Marks, n: int)
    requires
        0 <= n <= parts.len(),
        marks_of(parts.take(n), set) is None,
    ensures
        marks_of(parts, set) is None,
    decreases parts.len() - n,
{
    if n < parts.len() {
        assert(parts.take(n + 1).drop_last() =~= parts.take(n));
        lemma_marks_stay(parts, set, n + 1);
    } else {
        assert(parts.take(n) =~= parts);
    }
}

impl Config {
    /// The options before the first row of the options file at `cfgpath`:
    /// `props`, no column, and no reference line or stage named.
    pub fn new(cfgpath: String, defaults: Defaults, props: QTableProps) -> (config: Config)
        ensures
            config.cfgpath == cfgpath,
            config.defaults == defaults,
            config.props == props,
            config.columns@.len() == 0,
            config.show == (Shows { spec_limits: false, control_limits: false, targets: false }),
            config.mark == (Marks { spec_yield: false, control_yield: false, cpk: false }),
    {
        Config {
            cfgpath,
            defaults,
            props,
            columns: Vec::new(),
            show: Shows::empty(),
            mark: Marks::empty(),
        }
    }

    /// The options and the columns behind the last row: the columns that the
    /// rows named, or the standard ones where they named fewer than three.
    pub fn finish(self) -> (r: (QTableProps, Vec<Column>))
        ensures
            r.0 == self.props,
            self.columns@.len() >= 3 ==> r.1 == self.columns,
            self.columns@.len() < 3 ==> shapes(r.1@) == standard(),
    {
        if self.columns.len() < 3 {
            (self.props, default_columns())
        } else {
            (self.props, self.columns)
        }
    }

    /// Takes the columns to group by that the cells of `row` name.
    fn group_by(&mut self, row: &OptionRow)
        ensures
            final(self).props.group_by@ == old(self).props.group_by@ + selectors(row.cells@),
            only_props(
                *old(self),
                *final(self),
                QTableProps { group_by: final(self).props.group_by, ..old(self).props },
            ),
    {
        let mut i: usize = 0;
        while i < row.cells.len()
            invariant
                i <= row.cells@.len(),
                self.props.group_by@ == old(self).props.group_by@ + selectors(
                    row.cells@.take(i as int),
                ),
                only_props(
                    *old(self),
                    *self,
                    QTableProps { group_by: self.props.group_by, ..old(self).props },
                ),
            decreases row.cells@.len() - i,
        {
            let selector: GroupBy = match row.cells[i].1 {
                Some(u) => GroupBy::ColNumber(u),
                None => GroupBy::ColName(row.cells[i].0.clone()),
            };
            self.props.group_by.push(selector);
            i += 1;
            assert(self.props.group_by@ =~= old(self).props.group_by@ + selectors(
                row.cells@.take(i as int),
            ));
        }
        proof {
            assert(row.cells@.take(i as int) =~= row.cells@);
        }
    }

    /// Takes the column that `row` names.
    fn column(&mut self, row: &OptionRow) -> (said: Result<Option<String>, String>)
        requires
            ready(*row, Opt::Column),
        ensures
            applied(*old(self), *row, *final(self), heard(said)),
    {
        if row.nam.as_str().unicode_len() == 0 || row.wid.as_str().unicode_len() == 0 {
            return Ok(None);
        }
        let (width, told): (u32, Option<String>) = match row.wid_width {
            Some(w) => (w, None),
            None => (
                700,
                Some(
                    five(
                        "WID '",
                        row.wid.as_str(),
                        "' for column   '",
                        row.nam.as_str(),
                        "' is invalid, using '7' instead.",
                    ),
                ),
            ),
        };
        let fraction: (u64, u64) = match row.arg {
            Some(f) => f,
            None => (0, 0),
        };
        match column_kind(row.val.as_str(), fraction.0, fraction.1) {
            None => Err(refuse_value(row.val.as_str(), row.opt.as_str(), self.cfgpath.as_str())),
            Some(kind) => {
                let percentile: bool = match kind {
                    Kind::Percentile(_, _) => true,
                    _ => false,
                };
                if percentile && row.args.len() == 0 {
                    Ok(told)
                } else if percentile && row.arg.is_none() {
                    let mut message: String = five(
                        "invalid ARG '",
                        row.args[0].as_str(),
                        "' for column '",
                        row.opt.as_str(),
                        "' in configfile ",
                    );
                    message.append(self.cfgpath.as_str());
                    message.append(".");
                    Err(message)
                } else {
                    self.columns.push(column_of(kind, row.nam.clone(), width));
                    assert(self.columns@.drop_last() =~= old(self).columns@);
                    Ok(told)
                }
            },
        }
    }

    /// Takes a row of the option `Caption`.
    fn set_caption(&mut self, row: &OptionRow) -> (said: Result<Option<String>, String>)
        requires
            ready(*row, Opt::Caption),
        ensures
            applied(*old(self), *row, *final(self), heard(said)),
    {
        self.props.caption = row.val.clone();
        Ok(None)
    }

    /// Takes a row of the option `CaptionWhere`.
    fn set_caption_where(&mut self, row: &OptionRow) -> (said: Result<Option<String>, String>)
        requires
            ready(*row, Opt::CaptionWhere),
        ensures
            applied(*old(self), *row, *final(self), heard(said)),
    {
        let opt_text: &str = row.opt.as_str();
        let val: &str = row.val.as_str();
        if same(val, "firstpage") {
            self.props.captioneverypage = false;
            Ok(None)
        } else if same(val, "everypage") {
            self.props.captioneverypage = true;
            Ok(None)
        } else {
            Err(refuse_value(val, opt_text, self.cfgpath.as_str()))
        }
    }

    /// Takes a row of the option `Paper`.
    fn set_paper(&mut self, row: &OptionRow) -> (said: Result<Option<String>, String>)
        requires
            ready(*row, Opt::Paper),
        ensures
            applied(*old(self), *row, *final(self), heard(said)),
    {
        let opt_text: &str = row.opt.as_str();
        let val: &str = row.val.as_str();
        if same(val, "a4portrait") {
            self.props.paper = Paper::A4Portrait;
            Ok(None)
        } else if same(val, "a4landscape") {
            self.props.paper = Paper::A4Landscape;
            Ok(None)
        } else if same(val, "letterportrait") {
            self.props.paper = Paper::LetterPortrait;
            Ok(None)
        } else if same(val, "letterlandscape") {
            self.props.paper = Paper::LetterLandscape;
            Ok(None)
        } else {
            Err(refuse_value(val, opt_text, self.cfgpath.as_str()))
        }
    }

    /// Takes a row of the option `PdfFolder`.
    fn set_pdf_folder(&mut self, row: &OptionRow) -> (said: Result<Option<String>, String>)
        requires
            ready(*row, Opt::PdfFolder),
        ensures
            applied(*old(self), *row, *final(self), heard(said)),
    {
        if row.val_ori.as_str().unicode_len() == 0 {
            self.props.pdffolder = String::from_str(".");
        } else {
            self.props.pdffolder = row.val_ori.clone();
        }
        Ok(None)
    }

    /// Takes a row of the option `PdfFile`.
    fn set_pdf_file(&mut self, row: &OptionRow) -> (said: Result<Option<String>, String>)
        requires
            ready(*row, Opt::PdfFile),
        ensures
            applied(*old(self), *row, *final(self), heard(said)),
    {
        self.props.pdffile = row.val_ori.clone();
        Ok(None)
    }

    /// Takes a row of the option `PdfTimestamp`.
    fn set_pdf_timestamp(&mut self, row: &OptionRow) -> (said: Result<Option<String>, String>)
        requires
            ready(*row, Opt::PdfTimestamp),
        ensures
            applied(*old(self), *row, *final(self), heard(said)),
    {
        let val: &str = row.val.as_str();
        self.props.pdftimestamp =
        if same(val, "local") {
            PDFTimestamp::Local
        } else if same(val, "utc") {
            PDFTimestamp::UTC
        } else {
            PDFTimestamp::Off
        };
        Ok(None)
    }

    /// Takes a row of the option `Order`.
    fn set_order(&mut self, row: &OptionRow) -> (said: Result<Option<String>, String>)
        requires
            ready(*row, Opt::Order),
        ensures
            applied(*old(self), *row, *final(self), heard(said)),
    {
        let opt_text: &str = row.opt.as_str();
        let val: &str = row.val.as_str();
        if same(val, "bybadgood") {
            self.props.order = Order::ByBadGood;
            Ok(None)
        } else if same(val, "bynumber") {
            self.props.order = Order::ByNumber;
            Ok(None)
        } else {
            Err(refuse_value(val, opt_text, self.cfgpath.as_str()))
        }
    }

    /// Takes a row of the option `FontSize`.
    fn set_font_size(&mut self, row: &OptionRow) -> (said: Result<Option<String>, String>)
        requires
            ready(*row, Opt::FontSize),
        ensures
            applied(*old(self), *row, *final(self), heard(said)),
    {
        let opt_text: &str = row.opt.as_str();
        let val: &str = row.val.as_str();
        match row.val_int {
            Some(v) => {
                self.props.fontsize = v;
                Ok(None)
            },
            None => {
                self.props.fontsize = 6;
                Ok(Some(replace_value(val, opt_text, "6")))
            },
        }
    }

    /// Takes a row of the option `HistoBins`.
    fn set_histo_bins(&mut self, row: &OptionRow) -> (said: Result<Option<String>, String>)
        requires
            ready(*row, Opt::HistoBins),
        ensures
            applied(*old(self), *row, *final(self), heard(said)),
    {
        let opt_text: &str = row.opt.as_str();
        let val: &str = row.val.as_str();
        match row.val_count {
            Some(v) => {
                if v < 3 {
                    self.props.histogram_bins = 11;
                    let mut message: String = String::from_str(
                        "number of bins for histogram must be >= 3. '",
                    );
                    message.append(decimal(v as u128).as_str());
                    message.append("' is too low, using default value '11' instead.");
                    Ok(Some(message))
                } else {
                    self.props.histogram_bins = v;
                    Ok(None)
                }
            },
            None => {
                self.props.histogram_bins = 11;
                Ok(Some(replace_value(val, opt_text, "11")))
            },
        }
    }

    /// Takes a row of the option `Filter`.
    fn set_filter(&mut self, row: &OptionRow) -> (said: Result<Option<String>, String>)
        requires
            ready(*row, Opt::Filter),
        ensures
            applied(*old(self), *row, *final(self), heard(said)),
    {
        let opt_text: &str = row.opt.as_str();
        let val: &str = row.val.as_str();
        let iqr: bool = same(val, "iqr");
        if iqr || same(val, "zscore") {
            let (k, told): (i64, Option<String>) = match row.nam_level {
                Some(k) => (k, None),
                None => {
                    let mut message: String = five(
                        "In outliers ",
                        val,
                        ": '",
                        row.nam.as_str(),
                        "' is not a number, using ",
                    );
                    message.append(if iqr { "1.5" } else { "2.5" });
                    message.append(" instead");
                    (self.defaults.factor, Some(message))
                },
            };
            self.props.filter = if iqr { Filter::IQR(k) } else { Filter::ZScore(k) };
            Ok(told)
        } else {
            Err(refuse_value(val, opt_text, self.cfgpath.as_str()))
        }
    }

    /// Takes a row of the option `GroupNames`.
    fn set_group_names(&mut self, row: &OptionRow) -> (said: Result<Option<String>, String>)
        requires
            ready(*row, Opt::GroupNames),
        ensures
            applied(*old(self), *row, *final(self), heard(said)),
    {
        let opt_text: &str = row.opt.as_str();
        let val: &str = row.val.as_str();
        if same(val, "numbers") {
            self.props.longgroupnames = false;
            Ok(None)
        } else if same(val, "longnames") {
            self.props.longgroupnames = true;
            Ok(None)
        } else {
            Err(refuse_value(val, opt_text, self.cfgpath.as_str()))
        }
    }

    /// Takes a row of the option `Align`.
    fn set_align(&mut self, row: &OptionRow) -> (said: Result<Option<String>, String>)
        requires
            ready(*row, Opt::Align),
        ensures
            applied(*old(self), *row, *final(self), heard(said)),
    {
        let opt_text: &str = row.opt.as_str();
        let val: &str = row.val.as_str();
        if same(val, "control") {
            self.props.align = Align::ControlLimits;
            Ok(None)
        } else if same(val, "fit") {
            self.props.align = Align::FitValues;
            Ok(None)
        } else if same(val, "spec") {
            self.props.align = Align::SpecLimits;
            Ok(None)
        } else if same(val, "target") {
            self.props.align = Align::Targets;
            Ok(None)
        } else {
            Err(refuse_value(val, opt_text, self.cfgpath.as_str()))
        }
    }

    /// Takes a row of the option `Show`.
    fn set_show(&mut self, row: &OptionRow) -> (said: Result<Option<String>, String>)
        requires
            ready(*row, Opt::Show),
        ensures
            applied(*old(self), *row, *final(self), heard(said)),
    {
        let opt_text: &str = row.opt.as_str();
        let val: &str = row.val.as_str();
        match read_shows(&row.parts, self.show) {
            Some(set) => {
                self.show = set;
                if set.spec_limits || set.control_limits || set.targets {
                    self.props.show = set;
                }
                Ok(None)
            },
            None => Err(refuse_value(val, opt_text, self.cfgpath.as_str())),
        }
    }

    /// Takes a row of the option `Mark`.
    fn set_mark(&mut self, row: &OptionRow) -> (said: Result<Option<String>, String>)
        requires
            ready(*row, Opt::Mark),
        ensures
            applied(*old(self), *row, *final(self), heard(said)),
    {
        let opt_text: &str = row.opt.as_str();
        let val: &str = row.val.as_str();
        match read_marks(&row.parts, self.mark) {
            Some(set) => {
                self.mark = set;
                if set.spec_yield || set.control_yield || set.cpk {
                    self.props.mark = set;
                }
                Ok(None)
            },
            None => Err(refuse_value(val, opt_text, self.cfgpath.as_str())),
        }
    }

    /// Takes a row of the option `NanString`.
    fn set_nan_string(&mut self, row: &OptionRow) -> (said: Result<Option<String>, String>)
        requires
            ready(*row, Opt::NanString),
        ensures
            applied(*old(self), *row, *final(self), heard(said)),
    {
        self.props.nanstring = row.val.clone();
        Ok(None)
    }

    /// Takes a row of the option `SigDigits`.
    fn set_sig_digits(&mut self, row: &OptionRow) -> (said: Result<Option<String>, String>)
        requires
            ready(*row, Opt::SigDigits),
        ensures
            applied(*old(self), *row, *final(self), heard(said)),
    {
        let opt_text: &str = row.opt.as_str();
        let val: &str = row.val.as_str();
        match row.val_count {
            Some(v) => {
                self.props.sig_digits = v;
                Ok(None)
            },
            None => {
                self.props.sig_digits = 4;
                Ok(Some(replace_value(val, opt_text, "4")))
            },
        }
    }

    /// Takes a row of the option `FloatLimit`.
    fn set_float_limit(&mut self, row: &OptionRow) -> (said: Result<Option<String>, String>)
        requires
            ready(*row, Opt::FloatLimit),
        ensures
            applied(*old(self), *row, *final(self), heard(said)),
    {
        let opt_text: &str = row.opt.as_str();
        let val: &str = row.val.as_str();
        match row.val_level {
            Some(l) => {
                self.props.float_limit = l;
                Ok(None)
            },
            None => {
                self.props.float_limit = self.defaults.cutoff;
                Ok(
                    Some(
                        replace_value(
                            val,
                            opt_text,
                            "179769313486231570000000000000000000000000000000000000000000000000000000000000000000000000000000000000000000000000000000000000000000000000000000000000000000000000000000000000000000000000000000000000000000000000000000000000000000000000000000000000000000000000000000000000000000000000000000000000000000000000000",
                        ),
                    ),
                )
            },
        }
    }

    /// Takes a row of the option `SpecYieldLimit`.
    fn set_spec_yield_limit(&mut self, row: &OptionRow) -> (said: Result<Option<String>, String>)
        requires
            ready(*row, Opt::SpecYieldLimit),
        ensures
            applied(*old(self), *row, *final(self), heard(said)),
    {
        let opt_text: &str = row.opt.as_str();
        let val: &str = row.val.as_str();
        match row.val_percent {
            Some(t) => {
                self.props.spec_yield_limit = cap(t);
                Ok(None)
            },
            None => {
                self.props.spec_yield_limit = Threshold { num: 100, den: 1 };
                Ok(Some(replace_value(val, opt_text, "100")))
            },
        }
    }

    /// Takes a row of the option `CtrlYieldLimit`.
    fn set_ctrl_yield_limit(&mut self, row: &OptionRow) -> (said: Result<Option<String>, String>)
        requires
            ready(*row, Opt::CtrlYieldLimit),
        ensures
            applied(*old(self), *row, *final(self), heard(said)),
    {
        let opt_text: &str = row.opt.as_str();
        let val: &str = row.val.as_str();
        match row.val_percent {
            Some(t) => {
                self.props.ctrl_yield_limit = cap(t);
                Ok(None)
            },
            None => {
                self.props.ctrl_yield_limit = Threshold { num: 100, den: 1 };
                Ok(Some(replace_value(val, opt_text, "100")))
            },
        }
    }

    /// Takes a row of the option `CpkLimit`.
    fn set_cpk_limit(&mut self, row: &OptionRow) -> (said: Result<Option<String>, String>)
        requires
            ready(*row, Opt::CpkLimit),
        ensures
            applied(*old(self), *row, *final(self), heard(said)),
    {
        let opt_text: &str = row.opt.as_str();
        let val: &str = row.val.as_str();
        match row.val_level {
            Some(l) => {
                self.props.cpk_limit = if l > self.defaults.cpk_most {
                    self.defaults.cpk_most
                } else {
                    l
                };
                Ok(None)
            },
            None => {
                self.props.cpk_limit = self.defaults.cpk;
                Ok(Some(replace_value(val, opt_text, "1.67")))
            },
        }
    }

    /// Takes a row of the option `LongGroupNames`.
    fn set_long_group_names(&mut self, row: &OptionRow) -> (said: Result<Option<String>, String>)
        requires
            ready(*row, Opt::LongGroupNames),
        ensures
            applied(*old(self), *row, *final(self), heard(said)),
    {
        self.props.longgroupnames = true;
        Ok(None)
    }

    /// Takes one row of the options file. What comes back tells of a number
    /// that was replaced, or refuses the row.
    pub fn apply(&mut self, row: &OptionRow) -> (said: Result<Option<String>, String>)
        ensures
            applied(*old(self), *row, *final(self), heard(said)),
    {
        if !row.used {
            return Ok(None);
        }
        let opt_text: &str = row.opt.as_str();
        if opt_text.unicode_len() == 0 {
            return Err(
                five(
                    "column OPT in row '",
                    row.record.as_str(),
                    "'\n       in CSV configfile '",
                    self.cfgpath.as_str(),
                    "' is checked and cannot be empty.",
                ),
            );
        }
        let opt: Opt = option(opt_text);
        if opt == Opt::Unknown {
            return Err(five("unknown OPT '", opt_text, "' in configfile '", self.cfgpath.as_str(), "'."));
        }
        let may_be_empty: bool = opt == Opt::PdfFolder || opt == Opt::LongGroupNames || opt
            == Opt::NanString || opt == Opt::GroupBy;
        if row.val_ori.as_str().unicode_len() == 0 && !may_be_empty {
            let mut message: String = five(
                "column VAL for OPT '",
                opt_text,
                "' in CSV configfile '",
                self.cfgpath.as_str(),
                "' cannot be empty.\n              allowed VAL: \"",
            );
            message.append(allowed_text(opt));
            message.append("\"");
            return Err(message);
        }
        match opt {
            Opt::Caption => self.set_caption(row),
            Opt::CaptionWhere => self.set_caption_where(row),
            Opt::Paper => self.set_paper(row),
            Opt::PdfFolder => self.set_pdf_folder(row),
            Opt::PdfFile => self.set_pdf_file(row),
            Opt::PdfTimestamp => self.set_pdf_timestamp(row),
            Opt::Order => self.set_order(row),
            Opt::FontSize => self.set_font_size(row),
            Opt::HistoBins => self.set_histo_bins(row),
            Opt::Filter => self.set_filter(row),
            Opt::GroupNames => self.set_group_names(row),
            Opt::Align => self.set_align(row),
            Opt::Show => self.set_show(row),
            Opt::Mark => self.set_mark(row),
            Opt::NanString => self.set_nan_string(row),
            Opt::SigDigits => self.set_sig_digits(row),
            Opt::FloatLimit => self.set_float_limit(row),
            Opt::SpecYieldLimit => self.set_spec_yield_limit(row),
            Opt::CtrlYieldLimit => self.set_ctrl_yield_limit(row),
            Opt::CpkLimit => self.set_cpk_limit(row),
            Opt::GroupBy => {
                self.group_by(row);
                Ok(None)
            },
            Opt::LongGroupNames => self.set_long_group_names(row),
            Opt::Column => self.column(row),
            Opt::Unknown => Ok(None),
        }
    }
}

/// A yield threshold as it is taken: a hundred percent at most.
fn cap(t: Threshold) -> (c: Threshold)
    ensures
        c == capped(t),
{
    if t.den == 0 || (t.num as u64) > 100u64 * (t.den as u64) {
        Threshold { num: 100, den: 1 }
    } else {
        t
    }
}

} // verus!
