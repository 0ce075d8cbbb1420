//! What the charts of a row show: their span, their reference lines, their
//! colours. Where on the page a level falls is the caller's arithmetic.
use crate::limits::Limits;
use crate::numbers::{bins_of, percentile, Numbers, Quantile};
use crate::pdf::Tint;
use crate::qtable::{Align, Show, Shows};
use vstd::prelude::*;

verus! {

/// The span of levels that a chart shows. With `centre` set the span is to
/// be widened on one side until the centre lies in its middle.
#[derive(Debug, Copy, Clone, PartialEq, Eq, Structural)]
pub struct Domain {
    pub lef: Option<i64>,
    pub rig: Option<i64>,
    pub centre: Option<i64>,
}

/// The short tick that goes with a reference line.
#[derive(Debug, Copy, Clone, PartialEq, Eq, Structural)]
pub enum Tick {
    /// Behind the line: the line is a lower bound.
    After,
    /// Before the line: the line is an upper bound.
    Before,
    /// None: the line is the target.
    Without,
}

/// A reference line of a chart.
#[derive(Debug, Copy, Clone, PartialEq, Eq, Structural)]
pub struct RefLine {
    pub at: i64,
    pub tint: Tint,
    pub tick: Tick,
}

/// The least of the levels of `v` that are defined.
pub open spec fn least(v: Seq<Option<i64>>) -> Option<i64>
    decreases v.len(),
{
    if v.len() == 0 {
        None
    } else {
        match (least(v.drop_last()), v.last()) {
            (Some(a), Some(b)) => Some(if b < a { b } else { a }),
            (Some(a), None) => Some(a),
            (None, b) => b,
        }
    }
}

/// The greatest of the levels of `v`, if all of them are defined.
pub open spec fn greatest(v: Seq<Option<i64>>) -> Option<i64>
    decreases v.len(),
{
    if v.len() == 0 {
        None
    } else if v.len() == 1 {
        v[0]
    } else {
        match (greatest(v.drop_last()), v.last()) {
            (Some(a), Some(b)) => Some(if b > a { b } else { a }),
            _ => None,
        }
    }
}

/// The levels that a chart fitted to its values has to show: the ends of the
/// sample, and each limit whose lines are shown.
pub open spec fn fitted(s: Seq<i64>, limits: Limits, show: Shows) -> Seq<Option<i64>> {
    seq![
        if s.len() == 0 { None } else { Some(s[0]) },
        if s.len() == 0 { None } else { Some(s.last()) },
    ] + (if show.has(Show::SpecLimits) {
        seq![limits.lsl, limits.usl]
    } else {
        Seq::empty()
    }) + (if show.has(Show::ControlLimits) {
        seq![limits.lcl, limits.ucl]
    } else {
        Seq::empty()
    }) + (if show.has(Show::Targets) {
        seq![limits.tgt]
    } else {
        Seq::empty()
    })
}

/// The span of a chart. Aligned to limits it runs from the lower to the upper
/// one, and from or to the end of the sample where a limit is missing.
/// Fitted to its values it runs from the least to the greatest of the levels
/// it has to show, and has no right end if one of them is missing. Centred
/// on the target it is fitted, and widened around the target.
pub open spec fn domain_of(s: Seq<i64>, limits: Limits, align: Align, show: Shows) -> Domain {
    let min = if s.len() == 0 { None } else { Some(s[0]) };
    let max = if s.len() == 0 { None } else { Some(s.last()) };
    match align {
        Align::SpecLimits => Domain {
            lef: if limits.lsl is Some { limits.lsl } else { min },
            rig: if limits.usl is Some { limits.usl } else { max },
            centre: None,
        },
        Align::ControlLimits => Domain {
            lef: if limits.lcl is Some { limits.lcl } else { min },
            rig: if limits.ucl is Some { limits.ucl } else { max },
            centre: None,
        },
        Align::FitValues | Align::Targets => {
            let lef = least(fitted(s, limits, show));
            let rig = greatest(fitted(s, limits, show));
            Domain {
                lef,
                rig,
                centre: if align == Align::Targets && limits.tgt is Some && lef is Some && rig
                    is Some {
                    limits.tgt
                } else {
                    None
                },
            }
        },
    }
}

/// The line of a lower bound: in `good` where no reading lies under it, else
/// in `bad`.
pub open spec fn lower_line(s: Seq<i64>, bound: Option<i64>, good: Tint, bad: Tint) -> Seq<RefLine> {
    match bound {
        Some(b) => seq![
            RefLine { at: b, tint: if s[0] >= b { good } else { bad }, tick: Tick::After },
        ],
        None => Seq::empty(),
    }
}

/// The line of an upper bound: in `good` where no reading lies over it, else
/// in `bad`.
pub open spec fn upper_line(s: Seq<i64>, bound: Option<i64>, good: Tint, bad: Tint) -> Seq<RefLine> {
    match bound {
        Some(b) => seq![
            RefLine { at: b, tint: if s.last() <= b { good } else { bad }, tick: Tick::Before },
        ],
        None => Seq::empty(),
    }
}

/// The reference lines of a chart, in the order in which they are drawn: the
/// control limits, the specification limits, the target, each only where it
/// is shown and defined. An empty sample has none.
pub open spec fn reference_lines(s: Seq<i64>, limits: Limits, show: Shows) -> Seq<RefLine> {
    if s.len() == 0 {
        Seq::empty()
    } else {
        bound_lines(
            s,
            limits.lcl,
            limits.ucl,
            show.has(Show::ControlLimits),
            Tint::LightBlue,
            Tint::YellowOrange,
        ) + bound_lines(
            s,
            limits.lsl,
            limits.usl,
            show.has(Show::SpecLimits),
            Tint::Blue,
            Tint::Red,
        ) + (if show.has(Show::Targets) && limits.tgt is Some {
            seq![RefLine { at: limits.tgt.unwrap(), tint: Tint::Green, tick: Tick::Without }]
        } else {
            Seq::empty()
        })
    }
}

/// Takes one more level into the least and the greatest so far.
fn widen(lef: Option<i64>, rig: Option<i64>, first: bool, level: Option<i64>) -> (r: (
    Option<i64>,
    Option<i64>,
))
    ensures
        r.0 == (match (lef, level) {
            (Some(a), Some(b)) => Some(if b < a { b } else { a }),
            (Some(a), None) => Some(a),
            (None, b) => b,
        }),
        r.1 == (if first {
            level
        } else {
            match (rig, level) {
                (Some(a), Some(b)) => Some(if b > a { b } else { a }),
                _ => None,
            }
        }),
{
    let lef: Option<i64> = match (lef, level) {
        (Some(a), Some(b)) => Some(if b < a { b } else { a }),
        (Some(a), None) => Some(a),
        (None, b) => b,
    };
    let rig: Option<i64> = if first {
        level
    } else {
        match (rig, level) {
            (Some(a), Some(b)) => Some(if b > a { b } else { a }),
            _ => None,
        }
    };
    (lef, rig)
}

/// The least and the greatest of `levels`.
fn ends(levels: &Vec<Option<i64>>) -> (r: (Option<i64>, Option<i64>))
    ensures
        r.0 == least(levels@),
        r.1 == greatest(levels@),
{
    let mut lef: Option<i64> = None;
    let mut rig: Option<i64> = None;
    let mut i: usize = 0;
    while i < levels.len()
        invariant
            i <= levels@.len(),
            lef == least(levels@.take(i as int)),
            rig == greatest(levels@.take(i as int)),
        decreases levels@.len() - i,
    {
        proof {
            assert(levels@.take(i as int + 1).drop_last() =~= levels@.take(i as int));
        }
        let (l, r) = widen(lef, rig, i == 0, levels[i]);
        lef = l;
        rig = r;
        i += 1;
    }
    proof {
        assert(levels@.take(i as int) =~= levels@);
    }
    (lef, rig)
}

/// The span of a chart of the sample `numbers`.
pub fn compute_lef_rig_x(numbers: &Numbers, limits: &Limits, align: Align, show: Shows) -> (domain:
    Domain)
    ensures
        domain == domain_of(numbers@, *limits, align, show),
{
    let min: Option<i64> = numbers.min();
    let max: Option<i64> = numbers.max();
    match align {
        Align::SpecLimits => Domain {
            lef: if limits.lsl.is_some() { limits.lsl } else { min },
            rig: if limits.usl.is_some() { limits.usl } else { max },
            centre: None,
        },
        Align::ControlLimits => Domain {
            lef: if limits.lcl.is_some() { limits.lcl } else { min },
            rig: if limits.ucl.is_some() { limits.ucl } else { max },
            centre: None,
        },
        Align::FitValues | Align::Targets => {
            let mut v: Vec<Option<i64>> = Vec::new();
            v.push(min);
            v.push(max);
            if show.contains(Show::SpecLimits) {
                v.push(limits.lsl);
                v.push(limits.usl);
            }
            if show.contains(Show::ControlLimits) {
                v.push(limits.lcl);
                v.push(limits.ucl);
            }
            if show.contains(Show::Targets) {
                v.push(limits.tgt);
            }
            assert(v@ =~= fitted(numbers@, *limits, show));
            let (lef, rig) = ends(&v);
            let centred: bool = align == Align::Targets && limits.tgt.is_some() && lef.is_some()
                && rig.is_some();
            Domain { lef, rig, centre: if centred { limits.tgt } else { None } }
        },
    }
}

/// The lines of a pair of bounds.
pub open spec fn bound_lines(
    s: Seq<i64>,
    low: Option<i64>,
    upp: Option<i64>,
    shown: bool,
    good: Tint,
    bad: Tint,
) -> Seq<RefLine> {
    if shown {
        lower_line(s, low, good, bad) + upper_line(s, upp, good, bad)
    } else {
        Seq::empty()
    }
}

/// Adds the lines of a pair of bounds.
fn push_bounds(
    lines: &mut Vec<RefLine>,
    numbers: &Numbers,
    low: Option<i64>,
    upp: Option<i64>,
    shown: bool,
    good: Tint,
    bad: Tint,
)
    requires
        numbers@.len() > 0,
    ensures
        final(lines)@ == old(lines)@ + bound_lines(numbers@, low, upp, shown, good, bad),
{
    let (min, max) = match numbers.range() {
        Some(ends) => ends,
        None => (0, 0),
    };
    if shown {
        if let Some(b) = low {
            lines.push(RefLine { at: b, tint: if min >= b { good } else { bad }, tick: Tick::After });
        }
        if let Some(b) = upp {
            lines.push(
                RefLine { at: b, tint: if max <= b { good } else { bad }, tick: Tick::Before },
            );
        }
    }
    assert(lines@ =~= old(lines)@ + bound_lines(numbers@, low, upp, shown, good, bad));
}

/// The reference lines of a chart of the sample `numbers`.
pub fn add_limits(numbers: &Numbers, limits: &Limits, show: Shows) -> (lines: Vec<RefLine>)
    ensures
        lines@ == reference_lines(numbers@, *limits, show),
{
    let mut lines: Vec<RefLine> = Vec::new();
    if numbers.len() == 0 {
        return lines;
    }
    push_bounds(
        &mut lines,
        numbers,
        limits.lcl,
        limits.ucl,
        show.contains(Show::ControlLimits),
        Tint::LightBlue,
        Tint::YellowOrange,
    );
    push_bounds(
        &mut lines,
        numbers,
        limits.lsl,
        limits.usl,
        show.contains(Show::SpecLimits),
        Tint::Blue,
        Tint::Red,
    );
    if show.contains(Show::Targets) {
        if let Some(t) = limits.tgt {
            lines.push(RefLine { at: t, tint: Tint::Green, tick: Tick::Without });
        }
    }
    assert(lines@ =~= reference_lines(numbers@, *limits, show));
    lines
}

/// Whether the cell of a chart stays empty within its borders: the sample
/// has no reading.
pub fn plot_borders_and_check_empty(numbers: &Numbers) -> (empty: bool)
    ensures
        empty == (numbers@.len() == 0),
{
    numbers.len() == 0
}

/// What a box plot shows.
#[derive(Debug, PartialEq)]
pub struct BoxPlot {
    /// The ends of the whiskers: the least and the greatest reading.
    pub whiskers: (i64, i64),
    /// The ends of the box: the quartiles.
    pub quartiles: (Quantile, Quantile),
    /// The tick in the box: the median.
    pub median: Quantile,
    pub domain: Domain,
    pub lines: Vec<RefLine>,
}

/// What the box plot of the sample `numbers` shows; nothing for an empty
/// sample.
pub fn boxplot(numbers: &Numbers, limits: &Limits, align: Align, show: Shows) -> (plot: Option<
    BoxPlot,
>)
    ensures
        (plot is None) == (numbers@.len() == 0),
        plot is Some ==> {
            &&& plot.unwrap().whiskers == (numbers@[0], numbers@.last())
            &&& plot.unwrap().quartiles == (percentile(numbers@, 1, 4), percentile(numbers@, 3, 4))
            &&& plot.unwrap().median == percentile(numbers@, 1, 2)
            &&& plot.unwrap().domain == domain_of(numbers@, *limits, align, show)
            &&& plot.unwrap().lines@ == reference_lines(numbers@, *limits, show)
        },
{
    match numbers.range() {
        None => None,
        Some(whiskers) => Some(
            BoxPlot {
                whiskers,
                quartiles: numbers.iqr(),
                median: numbers.med(),
                domain: compute_lef_rig_x(numbers, limits, align, show),
                lines: add_limits(numbers, limits, show),
            },
        ),
    }
}

/// The greatest of `counts`, and none of none.
pub open spec fn peak(counts: Seq<usize>) -> usize
    decreases counts.len(),
{
    if counts.len() == 0 {
        0
    } else if counts.last() > peak(counts.drop_last()) {
        counts.last()
    } else {
        peak(counts.drop_last())
    }
}

/// What a histogram shows.
#[derive(Debug, PartialEq)]
pub struct Histogram {
    /// The count of each bin.
    pub bins: Vec<usize>,
    /// The greatest count: the bin that is drawn at full height.
    pub peak: usize,
    pub domain: Domain,
    pub lines: Vec<RefLine>,
}

/// What the histogram of the sample `numbers` shows, with `n` bins asked for
/// and bin `j` ending at `edges[j]`; nothing for an empty sample.
pub fn histogram(
    numbers: &Numbers,
    limits: &Limits,
    align: Align,
    show: Shows,
    n: usize,
    edges: &Vec<i64>,
) -> (plot: Option<Histogram>)
    ensures
        (plot is None) == (numbers@.len() == 0),
        plot is Some ==> {
            &&& plot.unwrap().bins@ == bins_of(numbers@, n, edges@)
            &&& plot.unwrap().peak == peak(bins_of(numbers@, n, edges@))
            &&& plot.unwrap().domain == domain_of(numbers@, *limits, align, show)
            &&& plot.unwrap().lines@ == reference_lines(numbers@, *limits, show)
        },
{
    if numbers.len() == 0 {
        return None;
    }
    let bins: Vec<usize> = numbers.bins_delta(n, edges);
    let mut top: usize = 0;
    let mut i: usize = 0;
    while i < bins.len()
        invariant
            i <= bins@.len(),
            top == peak(bins@.take(i as int)),
        decreases bins@.len() - i,
    {
        proof {
            assert(bins@.take(i as int + 1).drop_last() =~= bins@.take(i as int));
        }
        if bins[i] > top {
            top = bins[i];
        }
        i += 1;
    }
    proof {
        assert(bins@.take(i as int) =~= bins@);
    }
    Some(
        Histogram {
            bins,
            peak: top,
            domain: compute_lef_rig_x(numbers, limits, align, show),
            lines: add_limits(numbers, limits, show),
        },
    )
}

/// What a capability bar shows: a zone of failure up to the threshold, a
/// zone of success from it on, a marker at the threshold, and one at the
/// index of the sample.
#[derive(Debug, Copy, Clone, PartialEq)]
pub struct CpkPlot {
    pub fail_zone: Tint,
    pub pass_zone: Tint,
    /// The threshold.
    pub limit: i64,
    /// The index of the sample and the colour of its marker, where the
    /// sample has an index.
    pub marker: Option<(i64, Tint)>,
}

/// What the capability bar of a sample shows, nothing for an empty sample.
/// `cpk` is the level of the sample's index, where it has one: a marker
/// under the threshold `cpk_limit` is in the colour of failure.
pub fn cpkplot(numbers: &Numbers, cpk: Option<i64>, cpk_limit: i64) -> (plot: Option<CpkPlot>)
    ensures
        plot == (if numbers@.len() == 0 {
            None
        } else {
            Some(
                CpkPlot {
                    fail_zone: Tint::Plum,
                    pass_zone: Tint::PaleGreen,
                    limit: cpk_limit,
                    marker: match cpk {
                        Some(c) => Some(
                            (c, if c < cpk_limit { Tint::Fuchsia } else { Tint::DarkGreen }),
                        ),
                        None => None,
                    },
                },
            )
        }),
{
    if numbers.len() == 0 {
        return None;
    }
    let marker: Option<(i64, Tint)> = match cpk {
        Some(c) => Some((c, if c < cpk_limit { Tint::Fuchsia } else { Tint::DarkGreen })),
        None => None,
    };
    Some(CpkPlot { fail_zone: Tint::Plum, pass_zone: Tint::PaleGreen, limit: cpk_limit, marker })
}

} // verus!
