//! The columns of a quality table, its options, and the order of its rows.
use crate::limits::{Limits, YieldOk};
use crate::numbers::{
    cp_of, cpk_of, k_of, percentile, yield_of, Capability, Figure, Numbers, Offset, Quantile,
    Yield,
};
use crate::pdf::{rgb_of, tint, Tint};
use crate::config::QTableProps;
use crate::group::{Group, Groups};
use crate::table::{
    header_line, lemma_rows_keep_the_columns, steps, views, CellContent, CellView, Layout, Op,
    Plot, Step, Table,
};
use crate::text::{decimal, digits, filled, pad_left};
use vstd::prelude::*;
use vstd::string::StringExecFns;

verus! {

/// The order in which the parameters are listed.
#[derive(Debug, Copy, Clone, PartialEq, Eq, Structural)]
pub enum Order {
    /// As the data lists them.
    ByNumber,
    /// Failing parameters first, by the stage they fail.
    ByBadGood,
}

/// The rule by which outliers are taken out of a sample. Each payload is a level.
#[derive(Debug, Copy, Clone, PartialEq, Eq, Structural)]
pub enum Filter {
    /// Nothing is taken out.
    Off,
    /// Outside the quartiles, widened by this factor times their distance.
    IQR(i64),
    /// Further than this many standard scores from the centre.
    ZScore(i64),
    /// At or under this level.
    Lower(i64),
    /// At or over this level.
    Upper(i64),
    /// Not strictly between these two levels.
    Between(i64, i64),
}

impl Filter {
    /// Whether the reading `v` stays in the sample. The fences of `IQR` and
    /// `ZScore` come from arithmetic on the unfiltered sample and are handed
    /// in as `spread`; where they are undefined nothing stays.
    pub open spec fn admits(self, spread: Option<(i64, i64)>, v: i64) -> bool {
        match self {
            Filter::Off => true,
            Filter::IQR(_) | Filter::ZScore(_) => match spread {
                Some((lo, hi)) => lo < v && v < hi,
                None => false,
            },
            Filter::Lower(f) => v > f,
            Filter::Upper(g) => v < g,
            Filter::Between(f, g) => f < v && v < g,
        }
    }

    /// Decides whether the reading `v` stays in the sample.
    pub fn keeps(&self, spread: Option<(i64, i64)>, v: i64) -> (kept: bool)
        ensures
            kept == self.admits(spread, v),
    {
        match self {
            Filter::Off => true,
            Filter::IQR(_) | Filter::ZScore(_) => match spread {
                Some((lo, hi)) => lo < v && v < hi,
                None => false,
            },
            Filter::Lower(f) => v > *f,
            Filter::Upper(g) => v < *g,
            Filter::Between(f, g) => *f < v && v < *g,
        }
    }
}

/// How the charts of one column are aligned.
#[derive(Debug, Copy, Clone, PartialEq, Eq, Structural)]
pub enum Align {
    SpecLimits,
    ControlLimits,
    Targets,
    FitValues,
}

/// A reference line that a chart may show.
#[derive(Debug, Copy, Clone, PartialEq, Eq, Structural)]
pub enum Show {
    SpecLimits,
    ControlLimits,
    Targets,
}

/// A stage of the classification whose failure may be marked.
#[derive(Debug, Copy, Clone, PartialEq, Eq, Structural)]
pub enum Mark {
    SpecYield,
    ControlYield,
    Cpk,
}

/// A set of reference lines.
#[derive(Debug, Copy, Clone, PartialEq, Eq, Structural)]
pub struct Shows {
    pub spec_limits: bool,
    pub control_limits: bool,
    pub targets: bool,
}

impl Shows {
    /// Whether `line` is in the set.
    pub open spec fn has(self, line: Show) -> bool {
        match line {
            Show::SpecLimits => self.spec_limits,
            Show::ControlLimits => self.control_limits,
            Show::Targets => self.targets,
        }
    }

    /// The set without a line.
    pub fn empty() -> (set: Shows)
        ensures
            set == (Shows { spec_limits: false, control_limits: false, targets: false }),
    {
        Shows { spec_limits: false, control_limits: false, targets: false }
    }

    /// The set of all lines.
    pub fn all() -> (set: Shows)
        ensures
            set == (Shows { spec_limits: true, control_limits: true, targets: true }),
    {
        Shows { spec_limits: true, control_limits: true, targets: true }
    }

    /// Whether the set holds no line.
    pub fn is_empty(&self) -> (none: bool)
        ensures
            none == (forall|line: Show| !self.has(line)),
    {
        let none: bool = !self.spec_limits && !self.control_limits && !self.targets;
        proof {
            if !none {
                assert(self.has(Show::SpecLimits) || self.has(Show::ControlLimits) || self.has(
                    Show::Targets,
                ));
            }
        }
        none
    }

    /// Whether `line` is in the set.
    pub fn contains(&self, line: Show) -> (held: bool)
        ensures
            held == self.has(line),
    {
        match line {
            Show::SpecLimits => self.spec_limits,
            Show::ControlLimits => self.control_limits,
            Show::Targets => self.targets,
        }
    }

    /// Puts `line` into the set.
    pub fn insert(&mut self, line: Show)
        ensures
            forall|other: Show| final(self).has(other) == (other == line || old(self).has(other)),
    {
        match line {
            Show::SpecLimits => {
                self.spec_limits = true;
            },
            Show::ControlLimits => {
                self.control_limits = true;
            },
            Show::Targets => {
                self.targets = true;
            },
        }
    }
}

/// A set of stages.
#[derive(Debug, Copy, Clone, PartialEq, Eq, Structural)]
pub struct Marks {
    pub spec_yield: bool,
    pub control_yield: bool,
    pub cpk: bool,
}

impl Marks {
    /// Whether `stage` is in the set.
    pub open spec fn has(self, stage: Mark) -> bool {
        match stage {
            Mark::SpecYield => self.spec_yield,
            Mark::ControlYield => self.control_yield,
            Mark::Cpk => self.cpk,
        }
    }

    /// The set without a stage.
    pub fn empty() -> (set: Marks)
        ensures
            set == (Marks { spec_yield: false, control_yield: false, cpk: false }),
    {
        Marks { spec_yield: false, control_yield: false, cpk: false }
    }

    /// The set of all stages.
    pub fn all() -> (set: Marks)
        ensures
            set == (Marks { spec_yield: true, control_yield: true, cpk: true }),
    {
        Marks { spec_yield: true, control_yield: true, cpk: true }
    }

    /// Whether the set holds no stage.
    pub fn is_empty(&self) -> (none: bool)
        ensures
            none == (forall|stage: Mark| !self.has(stage)),
    {
        let none: bool = !self.spec_yield && !self.control_yield && !self.cpk;
        proof {
            if !none {
                assert(self.has(Mark::SpecYield) || self.has(Mark::ControlYield) || self.has(
                    Mark::Cpk,
                ));
            }
        }
        none
    }

    /// Whether `stage` is in the set.
    pub fn contains(&self, stage: Mark) -> (held: bool)
        ensures
            held == self.has(stage),
    {
        match stage {
            Mark::SpecYield => self.spec_yield,
            Mark::ControlYield => self.control_yield,
            Mark::Cpk => self.cpk,
        }
    }

    /// Puts `stage` into the set.
    pub fn insert(&mut self, stage: Mark)
        ensures
            forall|other: Mark| final(self).has(other) == (other == stage || old(self).has(other)),
    {
        match stage {
            Mark::SpecYield => {
                self.spec_yield = true;
            },
            Mark::ControlYield => {
                self.control_yield = true;
            },
            Mark::Cpk => {
                self.cpk = true;
            },
        }
    }
}

/// What a column shows.
#[derive(Debug, Copy, Clone, PartialEq, Eq, Structural)]
pub enum Kind {
    /// The parameter's number, or the group's name.
    Number,
    /// The parameter's name.
    Parameter,
    /// The size of the sample.
    Count,
    /// The mean.
    Mean,
    /// The median.
    Median,
    /// The variance.
    Variance,
    /// The standard deviation.
    Sdev,
    /// The least reading.
    Min,
    /// The greatest reading.
    Max,
    /// The least and the greatest reading.
    Range,
    /// The yield against the specification limits.
    SpecYield,
    /// The yield against the control limits.
    CtrlYield,
    /// The index `k`.
    K,
    /// The index `cpk`.
    Cpk,
    /// The index `cp`.
    Cp,
    /// The percentile that the fraction names.
    Percentile(u64, u64),
    /// The lower quartile.
    P25,
    /// The upper quartile.
    P75,
    /// The lower specification limit.
    LSL,
    /// The target.
    TGT,
    /// The upper specification limit.
    USL,
    /// The lower control limit.
    LCL,
    /// The upper control limit.
    UCL,
    /// A box plot.
    Boxplot,
    /// A histogram.
    Histogram,
    /// A capability bar.
    Cpkplot,
}

/// A column as the contracts speak of it.
pub struct Shape {
    /// What it shows.
    pub kind: Kind,
    /// Its name.
    pub name: Seq<char>,
    /// Its width.
    pub width: u32,
}

/// The columns as the contracts speak of them.
pub open spec fn shapes(columns: Seq<Column>) -> Seq<Shape> {
    Seq::new(columns.len(), |i: int| columns[i].shape())
}

/// A column of the table: what it shows, under which name, and how wide, in
/// hundredths of a percent of the width of the page.
#[derive(Debug, Clone, PartialEq)]
pub enum Column {
    Number(String, u32),
    Parameter(String, u32),
    Count(String, u32),
    Mean(String, u32),
    Median(String, u32),
    Variance(String, u32),
    Sdev(String, u32),
    Min(String, u32),
    Max(String, u32),
    Range(String, u32),
    SpecYield(String, u32),
    CtrlYield(String, u32),
    K(String, u32),
    Cpk(String, u32),
    Cp(String, u32),
    /// With the fraction as numerator and denominator.
    Percentile(String, u32, u64, u64),
    P25(String, u32),
    P75(String, u32),
    LSL(String, u32),
    TGT(String, u32),
    USL(String, u32),
    LCL(String, u32),
    UCL(String, u32),
    Boxplot(String, u32),
    Histogram(String, u32),
    Cpkplot(String, u32),
}

impl Column {
    /// What the column shows.
    pub open spec fn kind(self) -> Kind {
        match self {
            Column::Number(_, _) => Kind::Number,
            Column::Parameter(_, _) => Kind::Parameter,
            Column::Count(_, _) => Kind::Count,
            Column::Mean(_, _) => Kind::Mean,
            Column::Median(_, _) => Kind::Median,
            Column::Variance(_, _) => Kind::Variance,
            Column::Sdev(_, _) => Kind::Sdev,
            Column::Min(_, _) => Kind::Min,
            Column::Max(_, _) => Kind::Max,
            Column::Range(_, _) => Kind::Range,
            Column::SpecYield(_, _) => Kind::SpecYield,
            Column::CtrlYield(_, _) => Kind::CtrlYield,
            Column::K(_, _) => Kind::K,
            Column::Cpk(_, _) => Kind::Cpk,
            Column::Cp(_, _) => Kind::Cp,
            Column::Percentile(_, _, num, den) => Kind::Percentile(num, den),
            Column::P25(_, _) => Kind::P25,
            Column::P75(_, _) => Kind::P75,
            Column::LSL(_, _) => Kind::LSL,
            Column::TGT(_, _) => Kind::TGT,
            Column::USL(_, _) => Kind::USL,
            Column::LCL(_, _) => Kind::LCL,
            Column::UCL(_, _) => Kind::UCL,
            Column::Boxplot(_, _) => Kind::Boxplot,
            Column::Histogram(_, _) => Kind::Histogram,
            Column::Cpkplot(_, _) => Kind::Cpkplot,
        }
    }

    /// The column's name.
    pub open spec fn name(self) -> Seq<char> {
        match self {
            Column::Number(name, _) => name@,
            Column::Parameter(name, _) => name@,
            Column::Count(name, _) => name@,
            Column::Mean(name, _) => name@,
            Column::Median(name, _) => name@,
            Column::Variance(name, _) => name@,
            Column::Sdev(name, _) => name@,
            Column::Min(name, _) => name@,
            Column::Max(name, _) => name@,
            Column::Range(name, _) => name@,
            Column::SpecYield(name, _) => name@,
            Column::CtrlYield(name, _) => name@,
            Column::K(name, _) => name@,
            Column::Cpk(name, _) => name@,
            Column::Cp(name, _) => name@,
            Column::Percentile(name, _, _, _) => name@,
            Column::P25(name, _) => name@,
            Column::P75(name, _) => name@,
            Column::LSL(name, _) => name@,
            Column::TGT(name, _) => name@,
            Column::USL(name, _) => name@,
            Column::LCL(name, _) => name@,
            Column::UCL(name, _) => name@,
            Column::Boxplot(name, _) => name@,
            Column::Histogram(name, _) => name@,
            Column::Cpkplot(name, _) => name@,
        }
    }

    /// The column's width.
    pub open spec fn width(self) -> u32 {
        match self {
            Column::Number(_, width) => width,
            Column::Parameter(_, width) => width,
            Column::Count(_, width) => width,
            Column::Mean(_, width) => width,
            Column::Median(_, width) => width,
            Column::Variance(_, width) => width,
            Column::Sdev(_, width) => width,
            Column::Min(_, width) => width,
            Column::Max(_, width) => width,
            Column::Range(_, width) => width,
            Column::SpecYield(_, width) => width,
            Column::CtrlYield(_, width) => width,
            Column::K(_, width) => width,
            Column::Cpk(_, width) => width,
            Column::Cp(_, width) => width,
            Column::Percentile(_, width, _, _) => width,
            Column::P25(_, width) => width,
            Column::P75(_, width) => width,
            Column::LSL(_, width) => width,
            Column::TGT(_, width) => width,
            Column::USL(_, width) => width,
            Column::LCL(_, width) => width,
            Column::UCL(_, width) => width,
            Column::Boxplot(_, width) => width,
            Column::Histogram(_, width) => width,
            Column::Cpkplot(_, width) => width,
        }
    }

    /// The column as the contracts speak of it.
    pub open spec fn shape(self) -> Shape {
        Shape { kind: self.kind(), name: self.name(), width: self.width() }
    }

    /// Whether two columns show the same under the same name and width.
    pub open spec fn alike(self, other: Column) -> bool {
        self.shape() == other.shape()
    }

    /// What the column shows.
    pub fn column_kind(&self) -> (kind: Kind)
        ensures
            kind == self.kind(),
    {
        match self {
            Column::Number(_, _) => Kind::Number,
            Column::Parameter(_, _) => Kind::Parameter,
            Column::Count(_, _) => Kind::Count,
            Column::Mean(_, _) => Kind::Mean,
            Column::Median(_, _) => Kind::Median,
            Column::Variance(_, _) => Kind::Variance,
            Column::Sdev(_, _) => Kind::Sdev,
            Column::Min(_, _) => Kind::Min,
            Column::Max(_, _) => Kind::Max,
            Column::Range(_, _) => Kind::Range,
            Column::SpecYield(_, _) => Kind::SpecYield,
            Column::CtrlYield(_, _) => Kind::CtrlYield,
            Column::K(_, _) => Kind::K,
            Column::Cpk(_, _) => Kind::Cpk,
            Column::Cp(_, _) => Kind::Cp,
            Column::Percentile(_, _, num, den) => Kind::Percentile(*num, *den),
            Column::P25(_, _) => Kind::P25,
            Column::P75(_, _) => Kind::P75,
            Column::LSL(_, _) => Kind::LSL,
            Column::TGT(_, _) => Kind::TGT,
            Column::USL(_, _) => Kind::USL,
            Column::LCL(_, _) => Kind::LCL,
            Column::UCL(_, _) => Kind::UCL,
            Column::Boxplot(_, _) => Kind::Boxplot,
            Column::Histogram(_, _) => Kind::Histogram,
            Column::Cpkplot(_, _) => Kind::Cpkplot,
        }
    }

    /// The column's name and width.
    pub fn column_name_width(&self) -> (r: (&str, u32))
        ensures
            r.0@ == self.name(),
            r.1 == self.width(),
    {
        match self {
            Column::Number(name, width) => (name.as_str(), *width),
            Column::Parameter(name, width) => (name.as_str(), *width),
            Column::Count(name, width) => (name.as_str(), *width),
            Column::Mean(name, width) => (name.as_str(), *width),
            Column::Median(name, width) => (name.as_str(), *width),
            Column::Variance(name, width) => (name.as_str(), *width),
            Column::Sdev(name, width) => (name.as_str(), *width),
            Column::Min(name, width) => (name.as_str(), *width),
            Column::Max(name, width) => (name.as_str(), *width),
            Column::Range(name, width) => (name.as_str(), *width),
            Column::SpecYield(name, width) => (name.as_str(), *width),
            Column::CtrlYield(name, width) => (name.as_str(), *width),
            Column::K(name, width) => (name.as_str(), *width),
            Column::Cpk(name, width) => (name.as_str(), *width),
            Column::Cp(name, width) => (name.as_str(), *width),
            Column::Percentile(name, width, _, _) => (name.as_str(), *width),
            Column::P25(name, width) => (name.as_str(), *width),
            Column::P75(name, width) => (name.as_str(), *width),
            Column::LSL(name, width) => (name.as_str(), *width),
            Column::TGT(name, width) => (name.as_str(), *width),
            Column::USL(name, width) => (name.as_str(), *width),
            Column::LCL(name, width) => (name.as_str(), *width),
            Column::UCL(name, width) => (name.as_str(), *width),
            Column::Boxplot(name, width) => (name.as_str(), *width),
            Column::Histogram(name, width) => (name.as_str(), *width),
            Column::Cpkplot(name, width) => (name.as_str(), *width),
        }
    }

    /// The column's name.
    pub fn column_name(&self) -> (name: &str)
        ensures
            name@ == self.name(),
    {
        self.column_name_width().0
    }

    /// The column's width.
    pub fn column_width(&self) -> (width: u32)
        ensures
            width == self.width(),
    {
        self.column_name_width().1
    }

    /// Decides whether two columns show the same under the same name and
    /// width.
    pub fn is_alike(&self, other: &Column) -> (same: bool)
        ensures
            same == self.alike(*other),
    {
        let (name, width) = self.column_name_width();
        let (other_name, other_width) = other.column_name_width();
        self.column_kind() == other.column_kind() && width == other_width && crate::text::same(
            name,
            other_name,
        )
    }

    /// A copy of the column.
    pub fn copy(&self) -> (column: Column)
        ensures
            column.alike(*self),
    {
        match self {
            Column::Number(name, width) => Column::Number(name.clone(), *width),
            Column::Parameter(name, width) => Column::Parameter(name.clone(), *width),
            Column::Count(name, width) => Column::Count(name.clone(), *width),
            Column::Mean(name, width) => Column::Mean(name.clone(), *width),
            Column::Median(name, width) => Column::Median(name.clone(), *width),
            Column::Variance(name, width) => Column::Variance(name.clone(), *width),
            Column::Sdev(name, width) => Column::Sdev(name.clone(), *width),
            Column::Min(name, width) => Column::Min(name.clone(), *width),
            Column::Max(name, width) => Column::Max(name.clone(), *width),
            Column::Range(name, width) => Column::Range(name.clone(), *width),
            Column::SpecYield(name, width) => Column::SpecYield(name.clone(), *width),
            Column::CtrlYield(name, width) => Column::CtrlYield(name.clone(), *width),
            Column::K(name, width) => Column::K(name.clone(), *width),
            Column::Cpk(name, width) => Column::Cpk(name.clone(), *width),
            Column::Cp(name, width) => Column::Cp(name.clone(), *width),
            Column::Percentile(name, width, num, den) => Column::Percentile(
                name.clone(),
                *width,
                *num,
                *den,
            ),
            Column::P25(name, width) => Column::P25(name.clone(), *width),
            Column::P75(name, width) => Column::P75(name.clone(), *width),
            Column::LSL(name, width) => Column::LSL(name.clone(), *width),
            Column::TGT(name, width) => Column::TGT(name.clone(), *width),
            Column::USL(name, width) => Column::USL(name.clone(), *width),
            Column::LCL(name, width) => Column::LCL(name.clone(), *width),
            Column::UCL(name, width) => Column::UCL(name.clone(), *width),
            Column::Boxplot(name, width) => Column::Boxplot(name.clone(), *width),
            Column::Histogram(name, width) => Column::Histogram(name.clone(), *width),
            Column::Cpkplot(name, width) => Column::Cpkplot(name.clone(), *width),
        }
    }
}

/// Changes to a list of columns.
pub trait ColumnsExt<T> {
    /// Whether the list has a column at `elem`.
    spec fn has(&self, elem: usize) -> bool;

    /// The list without the column at `elem`.
    spec fn without(&self, elem: usize) -> Seq<Column>;

    /// The list with `column` at `elem`.
    spec fn with(&self, elem: usize, column: Column) -> Seq<Column>;

    /// The list as it stands.
    spec fn list(&self) -> Seq<Column>;

    /// The message for a place that the list lacks.
    spec fn beyond(&self, what: Seq<char>, elem: usize) -> Seq<char>;

    /// Takes the column at `elem` out; a place beyond the last is refused.
    fn delete(&mut self, elem: usize) -> (r: Result<(), String>)
        requires
            old(self).list().len() > 0,
        ensures
            old(self).has(elem) ==> r is Ok && final(self).list() == old(self).without(elem),
            !old(self).has(elem) ==> r is Err && final(self).list() == old(self).list()
                && r->Err_0@ == old(self).beyond("delete"@, elem),
    ;

    /// Puts `column` in place of the column at `elem`; a place beyond the
    /// last is refused.
    fn replace(&mut self, elem: usize, column: Column) -> (r: Result<(), String>)
        requires
            old(self).list().len() > 0,
        ensures
            old(self).has(elem) ==> r is Ok && final(self).list() == old(self).with(elem, column),
            !old(self).has(elem) ==> r is Err && final(self).list() == old(self).list()
                && r->Err_0@ == old(self).beyond("replace"@, elem),
    ;
}

/// The message that refuses the place `elem` in a list of `len` columns.
fn refusal(what: &str, elem: usize, len: usize) -> (message: String)
    requires
        len > 0,
    ensures
        message@ == "canot "@ + what@ + " column '"@ + digits(elem as nat) + "', because it is > "@
            + digits((len - 1) as nat) + "."@,
{
    let mut message: String = String::from_str("canot ");
    message.append(what);
    message.append(" column '");
    message.append(decimal(elem as u128).as_str());
    message.append("', because it is > ");
    message.append(decimal((len - 1) as u128).as_str());
    message.append(".");
    message
}

impl ColumnsExt<Vec<Column>> for Vec<Column> {
    open spec fn has(&self, elem: usize) -> bool {
        elem < self@.len()
    }

    open spec fn without(&self, elem: usize) -> Seq<Column> {
        self@.remove(elem as int)
    }

    open spec fn with(&self, elem: usize, column: Column) -> Seq<Column> {
        self@.update(elem as int, column)
    }

    open spec fn list(&self) -> Seq<Column> {
        self@
    }

    open spec fn beyond(&self, what: Seq<char>, elem: usize) -> Seq<char> {
        "canot "@ + what + " column '"@ + digits(elem as nat) + "', because it is > "@ + digits(
            (self@.len() - 1) as nat,
        ) + "."@
    }

    fn delete(&mut self, elem: usize) -> (r: Result<(), String>) {
        if elem > self.len() - 1 {
            Err(refusal("delete", elem, self.len()))
        } else {
            self.remove(elem);
            Ok(())
        }
    }

    fn replace(&mut self, elem: usize, column: Column) -> (r: Result<(), String>) {
        if elem > self.len() - 1 {
            Err(refusal("replace", elem, self.len()))
        } else {
            self.set(elem, column);
            Ok(())
        }
    }
}

/// The standard columns: those of a table for which fewer than three are
/// configured.
pub open spec fn standard() -> Seq<Shape> {
    seq![
        Shape { kind: Kind::Number, name: "num"@, width: 400 },
        Shape { kind: Kind::Parameter, name: "parameter"@, width: 1000 },
        Shape { kind: Kind::LSL, name: "lsl"@, width: 600 },
        Shape { kind: Kind::TGT, name: "tgt"@, width: 600 },
        Shape { kind: Kind::USL, name: "usl"@, width: 600 },
        Shape { kind: Kind::LCL, name: "lcl"@, width: 600 },
        Shape { kind: Kind::UCL, name: "ucl"@, width: 600 },
        Shape { kind: Kind::Count, name: "cnt"@, width: 300 },
        Shape { kind: Kind::Min, name: "min"@, width: 600 },
        Shape { kind: Kind::Mean, name: "mea"@, width: 600 },
        Shape { kind: Kind::Max, name: "max"@, width: 600 },
        Shape { kind: Kind::CtrlYield, name: "ctrl yld"@, width: 300 },
        Shape { kind: Kind::SpecYield, name: "spec yld"@, width: 300 },
        Shape { kind: Kind::Cpk, name: "cpk"@, width: 300 },
        Shape { kind: Kind::Histogram, name: "histogram"@, width: 1000 },
        Shape { kind: Kind::Boxplot, name: "boxplot"@, width: 1000 },
        Shape { kind: Kind::Cpkplot, name: "cpkchart"@, width: 600 },
    ]
}

/// The columns of a table where none are configured.
pub fn default_columns() -> (columns: Vec<Column>)
    ensures
        shapes(columns@) == standard(),
{
    let mut columns: Vec<Column> = Vec::new();
    columns.push(Column::Number(String::from_str("num"), 400));
    columns.push(Column::Parameter(String::from_str("parameter"), 1000));
    columns.push(Column::LSL(String::from_str("lsl"), 600));
    columns.push(Column::TGT(String::from_str("tgt"), 600));
    columns.push(Column::USL(String::from_str("usl"), 600));
    columns.push(Column::LCL(String::from_str("lcl"), 600));
    columns.push(Column::UCL(String::from_str("ucl"), 600));
    columns.push(Column::Count(String::from_str("cnt"), 300));
    columns.push(Column::Min(String::from_str("min"), 600));
    columns.push(Column::Mean(String::from_str("mea"), 600));
    columns.push(Column::Max(String::from_str("max"), 600));
    columns.push(Column::CtrlYield(String::from_str("ctrl yld"), 300));
    columns.push(Column::SpecYield(String::from_str("spec yld"), 300));
    columns.push(Column::Cpk(String::from_str("cpk"), 300));
    columns.push(Column::Histogram(String::from_str("histogram"), 1000));
    columns.push(Column::Boxplot(String::from_str("boxplot"), 1000));
    columns.push(Column::Cpkplot(String::from_str("cpkchart"), 600));
    assert(shapes(columns@) =~= standard());
    columns
}

/// The number column where none is configured.
pub open spec fn default_number() -> Shape {
    Shape { kind: Kind::Number, name: "num"@, width: 500 }
}

/// The name column where none is configured.
pub open spec fn default_parameter() -> Shape {
    Shape { kind: Kind::Parameter, name: "parameter"@, width: 1000 }
}

/// The columns of a table for the configured ones: the number and the
/// parameter's name stand first, as they are configured last, or else as
/// `num` and `parameter`; each other column follows once, where it first
/// stands.
pub open spec fn arranged(columns_in: Seq<Shape>) -> Seq<Shape>
    decreases columns_in.len(),
{
    if columns_in.len() == 0 {
        seq![default_number(), default_parameter()]
    } else {
        let before = arranged(columns_in.drop_last());
        let c = columns_in.last();
        if c.kind == Kind::Number {
            before.update(0, c)
        } else if c.kind == Kind::Parameter {
            before.update(1, c)
        } else if before.contains(c) {
            before
        } else {
            before.push(c)
        }
    }
}

/// The message for a table without columns.
pub open spec fn no_columns() -> Seq<char> {
    "no columns defined for Qtable::new(...)."@
}

/// Whether a column like `column` is among `list`.
fn is_among(list: &Vec<Column>, column: &Column) -> (found: bool)
    ensures
        found == shapes(list@).contains(column.shape()),
{
    let mut i: usize = 0;
    while i < list.len()
        invariant
            i <= list@.len(),
            forall|j: int| 0 <= j < i ==> shapes(list@)[j] != column.shape(),
        decreases list@.len() - i,
    {
        if list[i].is_alike(column) {
            assert(shapes(list@)[i as int] == column.shape());
            return true;
        }
        i += 1;
    }
    false
}

/// The columns of a table for the configured ones; a table without a
/// configured column is refused.
pub fn arrange(columns_in: &Vec<Column>) -> (r: Result<Vec<Column>, String>)
    ensures
        columns_in@.len() == 0 ==> r is Err && r->Err_0@ == no_columns(),
        columns_in@.len() > 0 ==> r is Ok && shapes(r->Ok_0@) == arranged(shapes(columns_in@)),
{
    if columns_in.len() < 1 {
        return Err(String::from_str("no columns defined for Qtable::new(...)."));
    }
    let mut columns: Vec<Column> = Vec::new();
    columns.push(Column::Number(String::from_str("num"), 500));
    columns.push(Column::Parameter(String::from_str("parameter"), 1000));
    assert(shapes(columns@) =~= arranged(shapes(columns_in@).take(0)));
    let mut i: usize = 0;
    while i < columns_in.len()
        invariant
            i <= columns_in@.len(),
            columns@.len() >= 2,
            shapes(columns@) == arranged(shapes(columns_in@).take(i as int)),
        decreases columns_in@.len() - i,
    {
        let ghost before = arranged(shapes(columns_in@).take(i as int));
        proof {
            assert(shapes(columns_in@).take(i as int + 1).drop_last() =~= shapes(
                columns_in@,
            ).take(i as int));
        }
        let c: &Column = &columns_in[i];
        let kind: Kind = c.column_kind();
        if kind == Kind::Number {
            columns.set(0, c.copy());
        } else if kind == Kind::Parameter {
            columns.set(1, c.copy());
        } else {
            if !is_among(&columns, c) {
                columns.push(c.copy());
            }
        }
        i += 1;
        assert(shapes(columns@) =~= arranged(shapes(columns_in@).take(i as int)));
    }
    proof {
        assert(shapes(columns_in@).take(i as int) =~= shapes(columns_in@));
    }
    Ok(columns)
}

/// The colour of a row by its verdict.
pub open spec fn verdict_tint(limok: YieldOk) -> Tint {
    match limok {
        YieldOk::Yes => Tint::Green,
        YieldOk::SpecYieldNot => Tint::Red,
        YieldOk::CtrlYieldNot => Tint::YellowOrange,
        YieldOk::CpkNot => Tint::Fuchsia,
        YieldOk::NoLimits => Tint::White,
    }
}

/// One part of a colour, dimmed: a full part loses a tenth, any other gains
/// a half.
pub open spec fn dimmed(part: u16) -> int {
    if part == 2550 {
        2295
    } else {
        part + 1275
    }
}

/// The width of the number column in digits: as many as the number of
/// parameters has.
pub fn number_width(parameters: usize) -> (width: usize)
    ensures
        width == digits(parameters as nat).len(),
{
    let mut width: usize = 1;
    let mut left: usize = parameters;
    while left >= 10
        invariant
            left <= parameters,
            1 <= width <= parameters - left + 1,
            width + digits(left as nat).len() == digits(parameters as nat).len() + 1,
        decreases left,
    {
        left = left / 10;
        width += 1;
    }
    width
}

/// One row of the table: a parameter, or one group of its records.
#[derive(Debug)]
pub struct Par {
    /// The parameter's place among the columns of the data.
    pub number: usize,
    /// The group's name; empty for the parameter itself.
    pub group: String,
    /// The parameter's name.
    pub name: String,
    /// The verdict.
    pub limitsok: YieldOk,
    /// The sample.
    pub numbers: Numbers,
    /// The level of the sample's mean, where it has one.
    pub mean: Option<i64>,
    /// The limits that the verdict was reached with.
    pub limits: Limits,
}

/// The cell of a statistic that is one of the readings or takes arithmetic.
pub open spec fn quantile_cell(q: Quantile, nan: Seq<char>) -> CellView {
    match q {
        Quantile::Undefined => CellView::Text(nan),
        Quantile::At(v) => CellView::Number(Figure::Level(v)),
        Quantile::Mean => CellView::Number(Figure::Mean),
    }
}

/// The cell of a level that may be missing.
pub open spec fn level_cell(level: Option<i64>, nan: Seq<char>) -> CellView {
    match level {
        Some(v) => CellView::Number(Figure::Level(v)),
        None => CellView::Text(nan),
    }
}

/// The cell of a yield.
pub open spec fn yield_cell(y: Option<Yield>, nan: Seq<char>) -> CellView {
    match y {
        Some(counts) => CellView::Number(Figure::Yield(counts)),
        None => CellView::Text(nan),
    }
}

/// The cell of a capability index.
pub open spec fn capability_cell(c: Capability, nan: Seq<char>, cp: bool) -> CellView {
    if c == Capability::Undefined {
        CellView::Text(nan)
    } else if cp {
        CellView::Number(Figure::Cp(c))
    } else {
        CellView::Number(Figure::Cpk(c))
    }
}

/// What the cell of a column of kind `kind` holds for a row: the number or
/// the group's name, the parameter's name, a chart, or a figure of the sample
/// `s` or of the limits. A figure that the sample and the limits leave
/// undefined is the text `nan`.
pub open spec fn cell_of(
    kind: Kind,
    num: usize,
    group: Seq<char>,
    par: Seq<char>,
    s: Seq<i64>,
    mean: Option<i64>,
    limits: Limits,
    nan: Seq<char>,
    numwidth: usize,
) -> CellView {
    match kind {
        Kind::Number => if group.len() == 0 {
            CellView::Text(filled(digits((num + 1) as nat), numwidth as nat, '0'))
        } else {
            CellView::Text(group)
        },
        Kind::Parameter => CellView::Text(par),
        Kind::Count => if s.len() == 0 {
            CellView::Text(nan)
        } else {
            CellView::Number(Figure::Count(s.len() as usize))
        },
        Kind::Mean => if s.len() == 0 {
            CellView::Text(nan)
        } else {
            CellView::Number(Figure::Mean)
        },
        Kind::Median => quantile_cell(percentile(s, 1, 2), nan),
        Kind::Variance => if s.len() < 2 {
            CellView::Text(nan)
        } else {
            CellView::Number(Figure::Variance)
        },
        Kind::Sdev => if s.len() < 2 {
            CellView::Text(nan)
        } else {
            CellView::Number(Figure::Sdev)
        },
        Kind::Min => if s.len() == 0 {
            CellView::Text(nan)
        } else {
            CellView::Number(Figure::Level(s[0]))
        },
        Kind::Max => if s.len() == 0 {
            CellView::Text(nan)
        } else {
            CellView::Number(Figure::Level(s.last()))
        },
        Kind::Range => if s.len() == 0 {
            CellView::Text(nan + "..."@ + nan)
        } else {
            CellView::Number(Figure::Range(s[0], s.last()))
        },
        Kind::SpecYield => yield_cell(yield_of(s, limits.lsl, limits.usl), nan),
        Kind::CtrlYield => yield_cell(yield_of(s, limits.lcl, limits.ucl), nan),
        Kind::K => if k_of(mean, limits.lsl, limits.tgt, limits.usl) == Offset::Undefined
            || s.len() == 0 {
            CellView::Text(nan)
        } else {
            CellView::Number(Figure::K(k_of(mean, limits.lsl, limits.tgt, limits.usl)))
        },
        Kind::Cpk => capability_cell(cpk_of(s, limits.lsl, limits.usl), nan, false),
        Kind::Cp => capability_cell(cp_of(s, limits.lsl, limits.usl), nan, true),
        Kind::Percentile(num, den) => quantile_cell(percentile(s, num, den), nan),
        Kind::P25 => quantile_cell(percentile(s, 1, 4), nan),
        Kind::P75 => quantile_cell(percentile(s, 3, 4), nan),
        Kind::LSL => level_cell(limits.lsl, nan),
        Kind::TGT => level_cell(limits.tgt, nan),
        Kind::USL => level_cell(limits.usl, nan),
        Kind::LCL => level_cell(limits.lcl, nan),
        Kind::UCL => level_cell(limits.ucl, nan),
        Kind::Boxplot => CellView::Chart(Plot::Boxplot),
        Kind::Histogram => CellView::Chart(Plot::Histogram),
        Kind::Cpkplot => CellView::Chart(Plot::Cpkplot),
    }
}

/// Whether a column of kind `kind` shows a limit or a figure that takes one.
pub open spec fn takes_limits(kind: Kind) -> bool {
    kind == Kind::SpecYield || kind == Kind::CtrlYield || kind == Kind::K || kind == Kind::Cpk
        || kind == Kind::Cp || kind == Kind::LSL || kind == Kind::TGT || kind == Kind::USL || kind
        == Kind::LCL || kind == Kind::UCL
}

/// For a parameter without limits every column that shows a limit, or a
/// figure that takes one, holds the text that stands for a missing figure.
pub proof fn lemma_without_limits_every_figure_is_missing(
    kind: Kind,
    num: usize,
    group: Seq<char>,
    par: Seq<char>,
    s: Seq<i64>,
    mean: Option<i64>,
    nan: Seq<char>,
    numwidth: usize,
)
    requires
        takes_limits(kind),
    ensures
        cell_of(kind, num, group, par, s, mean, Limits::missing(), nan, numwidth)
            == CellView::Text(nan),
{
}

/// The cell of a statistic that is one of the readings or takes arithmetic.
fn quantile_content(q: Quantile, nan: &str) -> (cell: CellContent)
    ensures
        cell.shown() == quantile_cell(q, nan@),
{
    match q {
        Quantile::Undefined => CellContent::String(String::from_str(nan)),
        Quantile::At(v) => CellContent::Number(Figure::Level(v)),
        Quantile::Mean => CellContent::Number(Figure::Mean),
    }
}

/// The cell of a level that may be missing.
fn level_content(level: Option<i64>, nan: &str) -> (cell: CellContent)
    ensures
        cell.shown() == level_cell(level, nan@),
{
    match level {
        Some(v) => CellContent::Number(Figure::Level(v)),
        None => CellContent::String(String::from_str(nan)),
    }
}

/// The cell of a yield.
fn yield_content(y: Option<Yield>, nan: &str) -> (cell: CellContent)
    ensures
        cell.shown() == yield_cell(y, nan@),
{
    match y {
        Some(counts) => CellContent::Number(Figure::Yield(counts)),
        None => CellContent::String(String::from_str(nan)),
    }
}

/// The cell of a capability index.
fn capability_content(c: Capability, nan: &str, cp: bool) -> (cell: CellContent)
    ensures
        cell.shown() == capability_cell(c, nan@, cp),
{
    if c == Capability::Undefined {
        CellContent::String(String::from_str(nan))
    } else if cp {
        CellContent::Number(Figure::Cp(c))
    } else {
        CellContent::Number(Figure::Cpk(c))
    }
}

impl Column {
    /// What the cell of this column holds for a row. `mean` is the level of
    /// the sample's mean, where it has one.
    pub fn column_value(
        &self,
        num: &usize,
        group: &String,
        par: &String,
        numbers: &Numbers,
        mean: Option<i64>,
        limits: &Limits,
        qtableprops: &QTableProps,
        numwidth: usize,
    ) -> (cell: CellContent)
        ensures
            cell.shown() == cell_of(
                self.kind(),
                *num,
                group@,
                par@,
                numbers@,
                mean,
                *limits,
                qtableprops.nanstring@,
                numwidth,
            ),
    {
        let nan: &str = qtableprops.nanstring.as_str();
        let size: usize = numbers.len();
        match self.column_kind() {
            Kind::Number => {
                if group.as_str().unicode_len() == 0 {
                    let number: String = decimal((*num as u128) + 1);
                    CellContent::String(pad_left(number.as_str(), numwidth, true))
                } else {
                    CellContent::String(group.clone())
                }
            },
            Kind::Parameter => CellContent::String(par.clone()),
            Kind::Count => {
                if size == 0 {
                    CellContent::String(String::from_str(nan))
                } else {
                    CellContent::Number(Figure::Count(size))
                }
            },
            Kind::Mean => {
                if size == 0 {
                    CellContent::String(String::from_str(nan))
                } else {
                    CellContent::Number(Figure::Mean)
                }
            },
            Kind::Median => quantile_content(numbers.med(), nan),
            Kind::Variance => {
                if size < 2 {
                    CellContent::String(String::from_str(nan))
                } else {
                    CellContent::Number(Figure::Variance)
                }
            },
            Kind::Sdev => {
                if size < 2 {
                    CellContent::String(String::from_str(nan))
                } else {
                    CellContent::Number(Figure::Sdev)
                }
            },
            Kind::Min => match numbers.min() {
                Some(v) => CellContent::Number(Figure::Level(v)),
                None => CellContent::String(String::from_str(nan)),
            },
            Kind::Max => match numbers.max() {
                Some(v) => CellContent::Number(Figure::Level(v)),
                None => CellContent::String(String::from_str(nan)),
            },
            Kind::Range => match numbers.range() {
                Some((least, greatest)) => CellContent::Number(Figure::Range(least, greatest)),
                None => {
                    let mut text: String = String::from_str(nan);
                    text.append("...");
                    text.append(nan);
                    assert(text@ =~= nan@ + "..."@ + nan@);
                    CellContent::String(text)
                },
            },
            Kind::SpecYield => yield_content(numbers.yld(limits.lsl, limits.usl), nan),
            Kind::CtrlYield => yield_content(numbers.yld(limits.lcl, limits.ucl), nan),
            Kind::K => {
                let k: Offset = numbers.k(mean, limits.lsl, limits.tgt, limits.usl);
                if k == Offset::Undefined || size == 0 {
                    CellContent::String(String::from_str(nan))
                } else {
                    CellContent::Number(Figure::K(k))
                }
            },
            Kind::Cpk => capability_content(numbers.cpk(limits.lsl, limits.usl), nan, false),
            Kind::Cp => capability_content(numbers.cp(limits.lsl, limits.usl), nan, true),
            Kind::Percentile(num, den) => quantile_content(numbers.prc(num, den), nan),
            Kind::P25 => quantile_content(numbers.p25(), nan),
            Kind::P75 => quantile_content(numbers.p75(), nan),
            Kind::LSL => level_content(limits.lsl, nan),
            Kind::TGT => level_content(limits.tgt, nan),
            Kind::USL => level_content(limits.usl, nan),
            Kind::LCL => level_content(limits.lcl, nan),
            Kind::UCL => level_content(limits.ucl, nan),
            Kind::Boxplot => CellContent::Chart(Plot::Boxplot),
            Kind::Histogram => CellContent::Chart(Plot::Histogram),
            Kind::Cpkplot => CellContent::Chart(Plot::Cpkplot),
        }
    }
}

/// The figures of a row that are still to be written out, in the order of
/// their cells.
pub open spec fn figures_of(line: Seq<CellView>) -> Seq<Figure>
    decreases line.len(),
{
    if line.len() == 0 {
        Seq::empty()
    } else {
        match line.last() {
            CellView::Number(figure) => figures_of(line.drop_last()).push(figure),
            _ => figures_of(line.drop_last()),
        }
    }
}

/// The row `line` with its figures written out: the cell of each figure
/// holds the text of `texts` that stands at the figure's place among the
/// figures; a figure that has no text stays as it is.
pub open spec fn written(line: Seq<CellView>, texts: Seq<Seq<char>>) -> Seq<CellView> {
    Seq::new(
        line.len(),
        |i: int|
            match line[i] {
                CellView::Number(figure) => if figures_of(line.take(i)).len() < texts.len() {
                    CellView::Text(texts[figures_of(line.take(i)).len() as int])
                } else {
                    CellView::Number(figure)
                },
                cell => cell,
            },
    )
}

/// The figures of a row that are still to be written out.
pub fn figures(line: &Vec<CellContent>) -> (list: Vec<Figure>)
    ensures
        list@ == figures_of(views(line@)),
{
    let mut list: Vec<Figure> = Vec::new();
    let mut i: usize = 0;
    while i < line.len()
        invariant
            i <= line@.len(),
            list@ == figures_of(views(line@).take(i as int)),
        decreases line@.len() - i,
    {
        proof {
            assert(views(line@).take(i as int + 1).drop_last() =~= views(line@).take(i as int));
        }
        match &line[i] {
            CellContent::Number(figure) => {
                list.push(*figure);
            },
            _ => {},
        }
        i += 1;
    }
    proof {
        assert(views(line@).take(i as int) =~= views(line@));
    }
    list
}

/// The row `line` with its figures written out as `texts` has them.
pub fn write_figures(line: Vec<CellContent>, texts: &Vec<String>) -> (out: Vec<CellContent>)
    ensures
        views(out@) == written(views(line@), crate::text::texts(texts@)),
{
    let mut out: Vec<CellContent> = Vec::new();
    let mut used: usize = 0;
    let mut i: usize = 0;
    let ghost want = written(views(line@), crate::text::texts(texts@));
    while i < line.len()
        invariant
            i <= line@.len(),
            out@.len() == i,
            used == figures_of(views(line@).take(i as int)).len(),
            used <= i,
            want == written(views(line@), crate::text::texts(texts@)),
            forall|j: int| 0 <= j < i ==> (#[trigger] out@[j]).shown() == want[j],
        decreases line@.len() - i,
    {
        proof {
            assert(views(line@).take(i as int + 1).drop_last() =~= views(line@).take(i as int));
        }
        match &line[i] {
            CellContent::Number(figure) => {
                if used < texts.len() {
                    out.push(CellContent::String(texts[used].clone()));
                } else {
                    out.push(CellContent::Number(*figure));
                }
                used += 1;
            },
            CellContent::String(text) => {
                out.push(CellContent::String(text.clone()));
            },
            CellContent::Chart(plot) => {
                out.push(CellContent::Chart(*plot));
            },
        }
        i += 1;
    }
    assert(views(out@) =~= want);
    out
}

/// The rank of a verdict among the rows of a table that lists its failing
/// parameters first.
pub open spec fn bucket(limok: YieldOk) -> int {
    match limok {
        YieldOk::SpecYieldNot => 0,
        YieldOk::CtrlYieldNot => 1,
        YieldOk::CpkNot => 2,
        YieldOk::Yes => 3,
        YieldOk::NoLimits => 4,
    }
}

/// The places of the verdicts of rank `rank`, ascending.
pub open spec fn ranked(verdicts: Seq<YieldOk>, rank: int) -> Seq<int>
    decreases verdicts.len(),
{
    if verdicts.len() == 0 {
        Seq::empty()
    } else {
        let before = ranked(verdicts.drop_last(), rank);
        if bucket(verdicts.last()) == rank {
            before.push(verdicts.len() - 1)
        } else {
            before
        }
    }
}

/// The order in which the parameters are listed. Where failing parameters
/// come first and there are limits: those that fail their specification
/// limits, their control limits, their capability, then those that pass,
/// then those without a verdict, each lot in the order of the data.
/// Otherwise the order of the data.
pub open spec fn listing(verdicts: Seq<YieldOk>, order: Order, has_limits: bool) -> Seq<int> {
    if order == Order::ByBadGood && has_limits {
        ranked(verdicts, 0) + ranked(verdicts, 1) + ranked(verdicts, 2) + ranked(verdicts, 3)
            + ranked(verdicts, 4)
    } else {
        Seq::new(verdicts.len(), |i: int| i)
    }
}

/// Every parameter is listed: the listing is as long as the verdicts are
/// many.
pub proof fn lemma_listing_lists_every_parameter(
    verdicts: Seq<YieldOk>,
    order: Order,
    has_limits: bool,
)
    ensures
        listing(verdicts, order, has_limits).len() == verdicts.len(),
{
    lemma_ranked_lengths(verdicts);
}

/// The verdicts of the five ranks are all the verdicts.
proof fn lemma_ranked_lengths(verdicts: Seq<YieldOk>)
    ensures
        ranked(verdicts, 0).len() + ranked(verdicts, 1).len() + ranked(verdicts, 2).len() + ranked(
            verdicts,
            3,
        ).len() + ranked(verdicts, 4).len() == verdicts.len(),
    decreases verdicts.len(),
{
    if verdicts.len() > 0 {
        lemma_ranked_lengths(verdicts.drop_last());
    }
}

/// The rank of a verdict.
fn rank_of(limok: YieldOk) -> (rank: u8)
    ensures
        rank == bucket(limok),
{
    match limok {
        YieldOk::SpecYieldNot => 0,
        YieldOk::CtrlYieldNot => 1,
        YieldOk::CpkNot => 2,
        YieldOk::Yes => 3,
        YieldOk::NoLimits => 4,
    }
}

/// The order in which the parameters with these verdicts are listed.
pub fn emission_order(verdicts: &Vec<YieldOk>, order: Order, has_limits: bool) -> (places: Vec<
    usize,
>)
    ensures
        crate::group::places(places@) == listing(verdicts@, order, has_limits),
{
    let mut places: Vec<usize> = Vec::new();
    if order == Order::ByBadGood && has_limits {
        let mut rank: u8 = 0;
        let ghost mut done: Seq<int> = Seq::empty();
        while rank < 5
            invariant
                rank <= 5,
                crate::group::places(places@) == done,
                rank == 0 ==> done == Seq::<int>::empty(),
                rank == 1 ==> done == ranked(verdicts@, 0),
                rank == 2 ==> done == ranked(verdicts@, 0) + ranked(verdicts@, 1),
                rank == 3 ==> done == ranked(verdicts@, 0) + ranked(verdicts@, 1) + ranked(
                    verdicts@,
                    2,
                ),
                rank == 4 ==> done == ranked(verdicts@, 0) + ranked(verdicts@, 1) + ranked(
                    verdicts@,
                    2,
                ) + ranked(verdicts@, 3),
                rank == 5 ==> done == ranked(verdicts@, 0) + ranked(verdicts@, 1) + ranked(
                    verdicts@,
                    2,
                ) + ranked(verdicts@, 3) + ranked(verdicts@, 4),
            decreases 5 - rank,
        {
            let ghost start = done;
            let mut i: usize = 0;
            while i < verdicts.len()
                invariant
                    i <= verdicts@.len(),
                    rank < 5,
                    crate::group::places(places@) == start + ranked(
                        verdicts@.take(i as int),
                        rank as int,
                    ),
                decreases verdicts@.len() - i,
            {
                proof {
                    assert(verdicts@.take(i as int + 1).drop_last() =~= verdicts@.take(i as int));
                }
                if rank_of(verdicts[i]) == rank {
                    proof {
                        crate::group::lemma_places_push(places@, i);
                    }
                    places.push(i);
                }
                i += 1;
                assert(crate::group::places(places@) =~= start + ranked(
                    verdicts@.take(i as int),
                    rank as int,
                ));
            }
            proof {
                assert(verdicts@.take(i as int) =~= verdicts@);
                done = start + ranked(verdicts@, rank as int);
                assert(Seq::<int>::empty() + ranked(verdicts@, 0) =~= ranked(verdicts@, 0));
            }
            rank += 1;
        }
    } else {
        let mut i: usize = 0;
        while i < verdicts.len()
            invariant
                i <= verdicts@.len(),
                crate::group::places(places@) == Seq::new(i as nat, |j: int| j),
            decreases verdicts@.len() - i,
        {
            proof {
                crate::group::lemma_places_push(places@, i);
            }
            places.push(i);
            i += 1;
            assert(crate::group::places(places@) =~= Seq::new(i as nat, |j: int| j));
        }
    }
    places
}

/// The caption of a table with groups: the caption, a colon, and for each
/// group its name, its key and a bar.
pub open spec fn captioned(caption: Seq<char>, groups: Seq<Group>) -> Seq<char>
    decreases groups.len(),
{
    if groups.len() == 0 {
        caption
    } else {
        let g = groups.last();
        captioned(caption, groups.drop_last()) + (if groups.len() == 1 {
            ": "@
        } else {
            " "@
        }) + g.name@ + " "@ + g.group@ + " |"@
    }
}

/// The name of a group's row: the group's name, and its key where long
/// names are shown.
pub open spec fn group_label(g: Group, longgroupnames: bool) -> Seq<char> {
    if longgroupnames {
        g.name@ + " "@ + g.group@
    } else {
        g.name@
    }
}

/// The values of the records `indices` among `data`; a record that `data`
/// lacks has none.
pub open spec fn values_at(data: Seq<Seq<char>>, indices: Seq<usize>) -> Seq<Seq<char>>
    decreases indices.len(),
{
    if indices.len() == 0 {
        Seq::empty()
    } else {
        let before = values_at(data, indices.drop_last());
        if indices.last() < data.len() {
            before.push(data[indices.last() as int])
        } else {
            before
        }
    }
}

/// A quality table that is being written.
#[derive(Debug)]
pub struct QTable {
    /// The layout.
    pub table: Table,
    /// Whether the caption stands on every page.
    pub captioneverypage: bool,
    /// Whether the rows of groups carry the groups' keys.
    pub longgroupnames: bool,
    /// How many groups the records fall in.
    pub groups: usize,
}

impl QTable {
    /// The caption of a table with the groups `groups`.
    pub fn caption_of(caption: &str, groups: &Groups) -> (text: String)
        ensures
            text@ == captioned(caption@, groups.groups@),
    {
        let mut text: String = String::from_str(caption);
        let mut i: usize = 0;
        while i < groups.groups.len()
            invariant
                i <= groups.groups@.len(),
                text@ == captioned(caption@, groups.groups@.take(i as int)),
            decreases groups.groups@.len() - i,
        {
            proof {
                assert(groups.groups@.take(i as int + 1).drop_last() =~= groups.groups@.take(
                    i as int,
                ));
            }
            let g: &Group = &groups.groups[i];
            if i == 0 {
                text.append(": ");
            } else {
                text.append(" ");
            }
            text.append(g.name.as_str());
            text.append(" ");
            text.append(g.group.as_str());
            text.append(" |");
            i += 1;
            assert(text@ =~= captioned(caption@, groups.groups@.take(i as int)));
        }
        proof {
            assert(groups.groups@.take(i as int) =~= groups.groups@);
        }
        text
    }

    /// The name of the row of the group `g`.
    pub fn group_name(g: &Group, longgroupnames: bool) -> (name: String)
        ensures
            name@ == group_label(*g, longgroupnames),
    {
        let mut name: String = g.name.clone();
        if longgroupnames {
            name.append(" ");
            name.append(g.group.as_str());
        }
        name
    }

    /// The values of a parameter in the records of one group.
    pub fn group_values(data: &Vec<String>, indices: &Vec<usize>) -> (vals: Vec<String>)
        ensures
            crate::text::texts(vals@) == values_at(crate::text::texts(data@), indices@),
    {
        let mut vals: Vec<String> = Vec::new();
        let mut i: usize = 0;
        while i < indices.len()
            invariant
                i <= indices@.len(),
                crate::text::texts(vals@) == values_at(
                    crate::text::texts(data@),
                    indices@.take(i as int),
                ),
            decreases indices@.len() - i,
        {
            proof {
                assert(indices@.take(i as int + 1).drop_last() =~= indices@.take(i as int));
            }
            let m: usize = indices[i];
            if m < data.len() {
                vals.push(data[m].clone());
            }
            i += 1;
            assert(crate::text::texts(vals@) =~= values_at(
                crate::text::texts(data@),
                indices@.take(i as int),
            ));
        }
        proof {
            assert(indices@.take(i as int) =~= indices@);
        }
        vals
    }

    /// The colour of a row by its verdict.
    pub fn color_by_limits(limok: &YieldOk) -> (rgb: (u16, u16, u16))
        ensures
            rgb == rgb_of(verdict_tint(*limok)),
    {
        match limok {
            YieldOk::Yes => tint(&Tint::Green),
            YieldOk::SpecYieldNot => tint(&Tint::Red),
            YieldOk::CtrlYieldNot => tint(&Tint::YellowOrange),
            YieldOk::CpkNot => tint(&Tint::Fuchsia),
            YieldOk::NoLimits => tint(&Tint::White),
        }
    }

    /// The colour of the row of a group: each part of the colour dimmed, and
    /// never over the greatest number that a part can be.
    pub fn dimm_color(color: &(u16, u16, u16)) -> (rgb: (u16, u16, u16))
        ensures
            rgb.0 == (if dimmed(color.0) > 0xffff { 0xffff } else { dimmed(color.0) }),
            rgb.1 == (if dimmed(color.1) > 0xffff { 0xffff } else { dimmed(color.1) }),
            rgb.2 == (if dimmed(color.2) > 0xffff { 0xffff } else { dimmed(color.2) }),
    {
        (dimm_part(color.0), dimm_part(color.1), dimm_part(color.2))
    }

    /// The cells and the colour of the row of `par`: one cell for each
    /// column, and the colour of the verdict, or white for an empty sample.
    pub fn qtable_line(
        par: &Par,
        columns: &Vec<Column>,
        qtableprops: &QTableProps,
        numwidth: usize,
    ) -> (r: (Vec<CellContent>, (u16, u16, u16)))
        ensures
            views(r.0@) == row_cells(columns@, *par, qtableprops.nanstring@, numwidth),
            r.1 == rgb_of(row_tint(*par)),
    {
        let mut rowcolor: (u16, u16, u16) = QTable::color_by_limits(&par.limitsok);
        if par.numbers.len() < 1 {
            rowcolor = tint(&Tint::White);
        }
        let mut line: Vec<CellContent> = Vec::new();
        let mut i: usize = 0;
        while i < columns.len()
            invariant
                i <= columns@.len(),
                line@.len() == i,
                forall|j: int|
                    0 <= j < i ==> (#[trigger] line@[j]).shown() == cell_of(
                        columns@[j].kind(),
                        par.number,
                        par.group@,
                        par.name@,
                        par.numbers@,
                        par.mean,
                        par.limits,
                        qtableprops.nanstring@,
                        numwidth,
                    ),
            decreases columns@.len() - i,
        {
            line.push(
                columns[i].column_value(
                    &par.number,
                    &par.group,
                    &par.name,
                    &par.numbers,
                    par.mean,
                    &par.limits,
                    qtableprops,
                    numwidth,
                ),
            );
            i += 1;
        }
        assert(views(line@) =~= row_cells(columns@, *par, qtableprops.nanstring@, numwidth));
        (line, rowcolor)
    }
}

/// The cells of the row of `par`, one for each column.
pub open spec fn row_cells(
    columns: Seq<Column>,
    par: Par,
    nan: Seq<char>,
    numwidth: usize,
) -> Seq<CellView> {
    Seq::new(
        columns.len(),
        |i: int|
            cell_of(
                columns[i].kind(),
                par.number,
                par.group@,
                par.name@,
                par.numbers@,
                par.mean,
                par.limits,
                nan,
                numwidth,
            ),
    )
}

/// The colour of the row of `par`.
pub open spec fn row_tint(par: Par) -> Tint {
    if par.numbers@.len() == 0 {
        Tint::White
    } else {
        verdict_tint(par.limitsok)
    }
}

/// A colour, dimmed.
pub open spec fn dimmed_rgb(rgb: (u16, u16, u16)) -> (u16, u16, u16) {
    (
        if dimmed(rgb.0) > 0xffff {
            0xffffu16
        } else {
            dimmed(rgb.0) as u16
        },
        if dimmed(rgb.1) > 0xffff {
            0xffffu16
        } else {
            dimmed(rgb.1) as u16
        },
        if dimmed(rgb.2) > 0xffff {
            0xffffu16
        } else {
            dimmed(rgb.2) as u16
        },
    )
}

/// The names of the columns.
pub open spec fn names_of(columns: Seq<Column>) -> Seq<Seq<char>> {
    Seq::new(columns.len(), |i: int| columns[i].name())
}

impl QTable {
    /// Whether the rows of groups are drawn with the first two columns
    /// merged.
    pub open spec fn widens(&self) -> bool {
        self.groups > 1 && self.longgroupnames && self.table.max@.len() > 1
    }

    /// The steps before the row of a parameter: with groups, a blue rule.
    pub open spec fn ruler_steps(&self) -> Seq<Step> {
        if self.groups > 0 {
            seq![Step::Outline { tint: Tint::Blue }, Step::Rule { at: self.table@.pos }]
        } else {
            Seq::empty()
        }
    }

    /// A table with its caption and its column names drawn: the caption of
    /// the options with the groups behind it, and the names of `columns`.
    /// `max` has the characters that fit in a line of each column, `capmax`
    /// those of a line of the caption; `first` lines are free on the first
    /// page, `rest` on each further one.
    pub fn new(
        columns: &Vec<Column>,
        qtableprops: &QTableProps,
        groups: &Groups,
        max: Vec<usize>,
        capmax: usize,
        first: usize,
        rest: usize,
    ) -> (r: (QTable, Vec<Op>))
        requires
            max@.len() <= columns@.len(),
        ensures
            r.0.captioneverypage == qtableprops.captioneverypage,
            r.0.longgroupnames == qtableprops.longgroupnames,
            r.0.groups == groups.groups@.len(),
            ({
                let start = Layout::blank(
                    qtableprops.fontsize,
                    max@,
                    names_of(columns@),
                    captioned(qtableprops.caption@, groups.groups@),
                    capmax,
                    first,
                    rest,
                );
                &&& steps(r.1@) == start.caption_steps(true) + start.titled(true).row_steps(
                    header_line(names_of(columns@)),
                    rgb_of(Tint::DarkGrey),
                    false,
                    false,
                )
                &&& r.0.table@ == start.titled(true).next(header_line(names_of(columns@)), false)
                &&& r.0.table@.wf()
            }),
    {
        let mut hea: Vec<String> = Vec::new();
        let mut i: usize = 0;
        while i < columns.len()
            invariant
                i <= columns@.len(),
                hea@.len() == i,
                forall|j: int| 0 <= j < i ==> (#[trigger] hea@[j])@ == columns@[j].name(),
            decreases columns@.len() - i,
        {
            hea.push(String::from_str(columns[i].column_name()));
            i += 1;
        }
        assert(crate::text::texts(hea@) =~= names_of(columns@));
        let cap: String = QTable::caption_of(qtableprops.caption.as_str(), groups);
        let (table, ops) = Table::new(qtableprops.fontsize, max, hea, cap, capmax, first, rest);
        (
            QTable {
                table,
                captioneverypage: qtableprops.captioneverypage,
                longgroupnames: qtableprops.longgroupnames,
                groups: groups.groups.len(),
            },
            ops,
        )
    }

    /// The rule over the row of a parameter, where the records fall in
    /// groups.
    pub fn group_ruler(&self) -> (ops: Vec<Op>)
        ensures
            steps(ops@) == self.ruler_steps(),
    {
        let mut ops: Vec<Op> = Vec::new();
        if self.groups > 0 {
            ops.push(Op::Outline { tint: Tint::Blue });
            ops.push(self.table.table_full_line());
        }
        assert(steps(ops@) =~= self.ruler_steps());
        ops
    }

    /// Draws the row `line` of a parameter in the colour `fill`, under a rule
    /// where the records fall in groups.
    pub fn par_line(&mut self, line: &Vec<CellContent>, fill: (u16, u16, u16)) -> (ops: Vec<Op>)
        requires
            old(self).table@.wf(),
            line@.len() >= old(self).table.max@.len(),
        ensures
            steps(ops@) == old(self).ruler_steps() + old(self).table@.row_steps(
                views(line@),
                fill,
                false,
                old(self).captioneverypage,
            ),
            final(self).table@ == old(self).table@.next(views(line@), old(self).captioneverypage),
            final(self).table@.wf(),
            final(self).captioneverypage == old(self).captioneverypage,
            final(self).longgroupnames == old(self).longgroupnames,
            final(self).groups == old(self).groups,
    {
        let mut ops: Vec<Op> = self.group_ruler();
        let ghost ruled = steps(ops@);
        let mut more: Vec<Op> = self.table.row(line, fill, false, self.captioneverypage);
        let ghost drawn = steps(more@);
        ops.append(&mut more);
        assert(steps(ops@) =~= ruled + drawn);
        ops
    }

    /// The table as the rows of groups are drawn on it.
    pub open spec fn group_layout(&self) -> Layout {
        if self.widens() {
            self.table@.widened()
        } else {
            self.table@
        }
    }

    /// Draws the rows of the groups of one parameter, `lines`, indented, each
    /// in the colour of `fills` that stands at its place, dimmed. With more
    /// than one group and long names the first two columns are merged for
    /// these rows. Without groups nothing is drawn.
    pub fn group_lines(
        &mut self,
        lines: &Vec<Vec<CellContent>>,
        fills: &Vec<(u16, u16, u16)>,
    ) -> (ops: Vec<Op>)
        requires
            old(self).table@.wf(),
            fills@.len() >= lines@.len(),
            forall|j: int|
                0 <= j < lines@.len() ==> (#[trigger] lines@[j])@.len() >= old(
                    self,
                ).table.max@.len(),
        ensures
            final(self).captioneverypage == old(self).captioneverypage,
            final(self).longgroupnames == old(self).longgroupnames,
            final(self).groups == old(self).groups,
            final(self).table@.wf(),
            old(self).groups == 0 ==> ops@.len() == 0 && final(self).table@ == old(self).table@,
            old(self).groups > 0 ==> ({
                let rows = Seq::new(lines@.len(), |j: int| views(lines@[j]@));
                let dimmed = Seq::new(lines@.len(), |j: int| dimmed_rgb(fills@[j]));
                let start = old(self).group_layout();
                let end = start.after(rows, old(self).captioneverypage);
                &&& steps(ops@) == start.run(rows, dimmed, true, old(self).captioneverypage)
                &&& final(self).table@ == (if old(self).widens() {
                    end.narrowed(old(self).table.max@[0])
                } else {
                    end
                })
            }),
    {
        let mut ops: Vec<Op> = Vec::new();
        if self.groups == 0 {
            return ops;
        }
        let widen: bool = self.groups > 1 && self.longgroupnames && self.table.max.len() > 1;
        let mut saved: usize = 0;
        if widen {
            saved = self.table.merge();
        }
        let ghost start = self.table@;
        let ghost rows = Seq::new(lines@.len(), |j: int| views(lines@[j]@));
        let ghost dimmed = Seq::new(lines@.len(), |j: int| dimmed_rgb(fills@[j]));
        let caption: bool = self.captioneverypage;
        assert(steps(ops@) =~= start.run(rows.take(0), dimmed, true, caption));
        let mut j: usize = 0;
        while j < lines.len()
            invariant
                j <= lines@.len(),
                fills@.len() >= lines@.len(),
                self.table@.wf(),
                start.wf(),
                forall|k: int|
                    0 <= k < lines@.len() ==> (#[trigger] lines@[k])@.len() >= start.max.len(),
                rows == Seq::new(lines@.len(), |j: int| views(lines@[j]@)),
                dimmed == Seq::new(lines@.len(), |j: int| dimmed_rgb(fills@[j])),
                self.table@ == start.after(rows.take(j as int), caption),
                steps(ops@) == start.run(rows.take(j as int), dimmed, true, caption),
                self.captioneverypage == old(self).captioneverypage,
                self.longgroupnames == old(self).longgroupnames,
                self.groups == old(self).groups,
            decreases lines@.len() - j,
        {
            proof {
                lemma_rows_keep_the_columns(start, rows.take(j as int), caption);
                assert(rows.take(j as int + 1).drop_last() =~= rows.take(j as int));
            }
            let groupcolor: (u16, u16, u16) = QTable::dimm_color(&fills[j]);
            assert(groupcolor == dimmed[j as int]);
            let ghost before = steps(ops@);
            let mut more: Vec<Op> = self.table.row(&lines[j], groupcolor, true, caption);
            let ghost drawn = steps(more@);
            ops.append(&mut more);
            assert(steps(ops@) =~= before + drawn);
            j += 1;
        }
        proof {
            assert(rows.take(j as int) =~= rows);
            lemma_rows_keep_the_columns(start, rows, caption);
        }
        if widen {
            self.table.unmerge(saved);
        }
        ops
    }

    /// The rule that closes the table.
    pub fn finish(&self) -> (op: Op)
        ensures
            op.step() == (Step::Rule { at: self.table@.pos }),
    {
        self.table.table_full_line()
    }
}

/// One part of a colour, dimmed.
fn dimm_part(part: u16) -> (out: u16)
    ensures
        out == (if dimmed(part) > 0xffff { 0xffff } else { dimmed(part) }),
{
    if part == 2550 {
        2295
    } else if part > 0xffff - 1275 {
        0xffff
    } else {
        part + 1275
    }
}

} // verus!
