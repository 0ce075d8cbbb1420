//! Limits of a parameter and the verdict on a sample held against them.
use crate::numbers::{yield_of, Numbers, Yield};
use crate::qtable::{Filter, Mark, Marks};
use crate::text::{same, upper, uppercase};
use vstd::prelude::*;

verus! {

/// The verdict on one parameter, or on one group of its records.
#[derive(Debug, Copy, Clone, PartialEq, Eq, Structural)]
pub enum YieldOk {
    /// Every stage that was held passed.
    Yes,
    /// The sample fails its specification limits.
    SpecYieldNot,
    /// The sample fails its control limits.
    CtrlYieldNot,
    /// The capability index lies under its threshold.
    CpkNot,
    /// Nothing is decided: the parameter has no limits, or the stage is not marked.
    NoLimits,
}

/// The limits of one parameter; each is a level, or is missing.
#[derive(Debug, Copy, Clone, PartialEq, Eq, Structural)]
pub struct Limits {
    /// Lower specification limit.
    pub lsl: Option<i64>,
    /// Target.
    pub tgt: Option<i64>,
    /// Upper specification limit.
    pub usl: Option<i64>,
    /// Lower control limit.
    pub lcl: Option<i64>,
    /// Upper control limit.
    pub ucl: Option<i64>,
    /// Factor of the interquartile filter.
    pub flt_iqr: Option<i64>,
    /// Factor of the standard-score filter.
    pub flt_zsc: Option<i64>,
    /// Lower bound of the explicit filter.
    pub flt_low: Option<i64>,
    /// Upper bound of the explicit filter.
    pub flt_upp: Option<i64>,
}

impl Limits {
    /// Limits of which every one is missing.
    pub open spec fn missing() -> Limits {
        Limits {
            lsl: None,
            tgt: None,
            usl: None,
            lcl: None,
            ucl: None,
            flt_iqr: None,
            flt_zsc: None,
            flt_low: None,
            flt_upp: None,
        }
    }

    /// Limits of which every one is missing.
    pub fn new() -> (limits: Limits)
        ensures
            limits == Limits::missing(),
    {
        Limits {
            lsl: None,
            tgt: None,
            usl: None,
            lcl: None,
            ucl: None,
            flt_iqr: None,
            flt_zsc: None,
            flt_low: None,
            flt_upp: None,
        }
    }

    /// The filter that these limits name: the interquartile factor first,
    /// then the standard-score factor, then the explicit bounds.
    pub open spec fn filter(self) -> Option<Filter> {
        if let Some(k) = self.flt_iqr {
            Some(Filter::IQR(k))
        } else if let Some(k) = self.flt_zsc {
            Some(Filter::ZScore(k))
        } else {
            match (self.flt_low, self.flt_upp) {
                (Some(low), None) => Some(Filter::Lower(low)),
                (None, Some(upp)) => Some(Filter::Upper(upp)),
                (Some(low), Some(upp)) => Some(Filter::Between(low, upp)),
                (None, None) => None,
            }
        }
    }
}

/// Limits by the names of their columns.
pub trait LimitsExt<T> {
    /// The limit under `key`, as the contracts speak of it.
    spec fn under(&self, key: Seq<char>) -> Option<i64>;

    /// The limit under `key`: one of `lsl`, `tgt`, `usl`, `lcl`, `ucl`,
    /// `flt_iqr`, `flt_zsc`, `flt_low`, `flt_upp`. Any other key has none.
    fn getnum(&self, key: &str) -> (level: Option<i64>)
        ensures
            level == self.under(key@),
    ;
}

impl LimitsExt<Limits> for Limits {
    open spec fn under(&self, key: Seq<char>) -> Option<i64> {
        if key == "lsl"@ {
            self.lsl
        } else if key == "tgt"@ {
            self.tgt
        } else if key == "usl"@ {
            self.usl
        } else if key == "lcl"@ {
            self.lcl
        } else if key == "ucl"@ {
            self.ucl
        } else if key == "flt_iqr"@ {
            self.flt_iqr
        } else if key == "flt_zsc"@ {
            self.flt_zsc
        } else if key == "flt_low"@ {
            self.flt_low
        } else if key == "flt_upp"@ {
            self.flt_upp
        } else {
            None
        }
    }

    fn getnum(&self, key: &str) -> (level: Option<i64>) {
        if same(key, "lsl") {
            self.lsl
        } else if same(key, "tgt") {
            self.tgt
        } else if same(key, "usl") {
            self.usl
        } else if same(key, "lcl") {
            self.lcl
        } else if same(key, "ucl") {
            self.ucl
        } else if same(key, "flt_iqr") {
            self.flt_iqr
        } else if same(key, "flt_zsc") {
            self.flt_zsc
        } else if same(key, "flt_low") {
            self.flt_low
        } else if same(key, "flt_upp") {
            self.flt_upp
        } else {
            None
        }
    }
}

/// A yield threshold in percent, as the fraction `num / den`.
#[derive(Debug, Copy, Clone, PartialEq, Eq, Structural)]
pub struct Threshold {
    pub num: u32,
    pub den: u32,
}

impl Threshold {
    /// Whether the threshold is in force: a fraction under a hundred percent.
    pub open spec fn in_force(self) -> bool {
        self.den > 0 && self.num < 100 * self.den
    }

    /// Whether the yield that `y` counts lies over the threshold: a hundred
    /// times the readings inside the bounds, over the size of the sample.
    pub open spec fn passed_by(self, y: Yield) -> bool {
        100 * (y.total - y.below - y.above) * self.den > self.num * y.total
    }

    /// Decides whether the threshold is in force.
    pub fn is_in_force(&self) -> (b: bool)
        ensures
            b == self.in_force(),
    {
        self.den > 0 && (self.num as u64) < 100u64 * (self.den as u64)
    }

    /// Decides whether the yield that `y` counts lies over the threshold.
    pub fn is_passed_by(&self, y: &Yield) -> (b: bool)
        ensures
            b == self.passed_by(*y),
    {
        let inside: i128 = (y.total as i128) - (y.below as i128) - (y.above as i128);
        let scale: i128 = 100i128 * (self.den as i128);
        assert(-0x2_0000_0000_0000_0000 <= inside <= 0x1_0000_0000_0000_0000);
        assert(0 <= scale <= 0x64_0000_0000);
        assert(-0xc8_0000_0000_0000_0000_0000_0000 <= inside * scale
            <= 0x64_0000_0000_0000_0000_0000_0000) by (nonlinear_arith)
            requires
                -0x2_0000_0000_0000_0000 <= inside <= 0x1_0000_0000_0000_0000,
                0 <= scale <= 0x64_0000_0000,
        ;
        assert(0 <= (self.num as int) * (y.total as int) <= 0x1_0000_0000
            * 0x1_0000_0000_0000_0000) by (nonlinear_arith)
            requires
                0 <= self.num <= 0x1_0000_0000,
                0 <= y.total <= 0x1_0000_0000_0000_0000,
        ;
        assert(100 * (y.total - y.below - y.above) * self.den == inside * scale)
            by (nonlinear_arith)
            requires
                inside == y.total - y.below - y.above,
                scale == 100 * self.den,
        ;
        inside * scale > (self.num as i128) * (y.total as i128)
    }
}

/// The verdict of a stage as it is shown: the verdict itself where the stage
/// is marked, and `NoLimits` where it is not.
pub fn marker(yieldok: YieldOk, markit: bool) -> (shown: YieldOk)
    ensures
        shown == shown_as(yieldok, markit),
        !markit ==> shown == YieldOk::NoLimits,
{
    if markit {
        yieldok
    } else {
        YieldOk::NoLimits
    }
}

/// The verdict of a stage as it is shown.
pub open spec fn shown_as(yieldok: YieldOk, markit: bool) -> YieldOk {
    if markit {
        yieldok
    } else {
        YieldOk::NoLimits
    }
}

/// Whether a sample `s`, which has a reading, passes a pair of bounds; none
/// where neither bound is defined. With a threshold in force the yield must
/// lie over it. Otherwise every reading must respect each bound.
pub open spec fn passes(s: Seq<i64>, low: Option<i64>, upp: Option<i64>, lim: Threshold) -> Option<
    bool,
> {
    if low is None && upp is None {
        None
    } else if lim.in_force() {
        Some(lim.passed_by(yield_of(s, low, upp).unwrap()))
    } else {
        Some(
            (match low {
                Some(lo) => lo <= s[0],
                None => true,
            }) && (match upp {
                Some(hi) => hi >= s.last(),
                None => true,
            }),
        )
    }
}

/// The verdict of one yield stage: `fail` names the stage.
pub open spec fn stage(pass: Option<bool>, fail: YieldOk, markit: bool) -> YieldOk {
    match pass {
        Some(true) => shown_as(YieldOk::Yes, markit),
        Some(false) => shown_as(fail, markit),
        None => YieldOk::NoLimits,
    }
}

/// Whether the stages after one that gave `v` are still held.
pub open spec fn open_after(v: YieldOk) -> bool {
    v == YieldOk::NoLimits || v == YieldOk::Yes
}

/// The verdict of the capability stage. `cpk` is the index of the sample,
/// where it has one.
pub open spec fn capability_stage(
    limits: Limits,
    cpk: Option<i64>,
    cpk_lim: i64,
    markit: bool,
) -> YieldOk {
    if cpk is Some && cpk.unwrap() < cpk_lim {
        shown_as(YieldOk::CpkNot, markit)
    } else if limits.lcl is None && limits.ucl is None {
        YieldOk::NoLimits
    } else {
        shown_as(YieldOk::Yes, markit)
    }
}

/// The verdict on a sample `s`, which has a reading, held against `limits`:
/// the specification stage, then the control stage, then the capability
/// stage, each only while no earlier stage has failed.
pub open spec fn verdict(
    limits: Limits,
    s: Seq<i64>,
    spec_yld_lim: Threshold,
    ctrl_yld_lim: Threshold,
    cpk: Option<i64>,
    cpk_lim: i64,
    mark: Marks,
) -> YieldOk {
    let spec = stage(
        passes(s, limits.lsl, limits.usl, spec_yld_lim),
        YieldOk::SpecYieldNot,
        mark.has(Mark::SpecYield),
    );
    let ctrl = if open_after(spec) {
        stage(
            passes(s, limits.lcl, limits.ucl, ctrl_yld_lim),
            YieldOk::CtrlYieldNot,
            mark.has(Mark::ControlYield),
        )
    } else {
        spec
    };
    if open_after(ctrl) {
        capability_stage(limits, cpk, cpk_lim, mark.has(Mark::Cpk))
    } else {
        ctrl
    }
}

/// The verdict and the limits it was reached with, for a parameter whose
/// limits are `entry`, if it has any. Without limits there is no verdict
/// and the limits are all missing; an empty sample has no verdict either.
pub open spec fn classified(
    entry: Option<Limits>,
    s: Seq<i64>,
    spec_yld_lim: Threshold,
    ctrl_yld_lim: Threshold,
    cpk: Option<i64>,
    cpk_lim: i64,
    mark: Marks,
) -> (YieldOk, Limits) {
    match entry {
        None => (YieldOk::NoLimits, Limits::missing()),
        Some(limits) => if s.len() == 0 {
            (YieldOk::NoLimits, limits)
        } else {
            (verdict(limits, s, spec_yld_lim, ctrl_yld_lim, cpk, cpk_lim, mark), limits)
        },
    }
}

/// Decides whether a sample with a reading passes a pair of bounds.
fn check_bounds(numbers: &Numbers, low: Option<i64>, upp: Option<i64>, lim: &Threshold) -> (pass:
    Option<bool>)
    requires
        numbers@.len() > 0,
    ensures
        pass == passes(numbers@, low, upp, *lim),
{
    if low.is_none() && upp.is_none() {
        return None;
    }
    if lim.is_in_force() {
        let y: Option<Yield> = numbers.yld(low, upp);
        match y {
            Some(counts) => Some(lim.is_passed_by(&counts)),
            None => None,
        }
    } else {
        let least: Option<i64> = numbers.min();
        let greatest: Option<i64> = numbers.max();
        let low_ok: bool = match (low, least) {
            (Some(lo), Some(m)) => lo <= m,
            _ => true,
        };
        let upp_ok: bool = match (upp, greatest) {
            (Some(hi), Some(m)) => hi >= m,
            _ => true,
        };
        Some(low_ok && upp_ok)
    }
}

/// Gives a yield stage its verdict.
fn stage_verdict(pass: Option<bool>, fail: YieldOk, markit: bool) -> (v: YieldOk)
    ensures
        v == stage(pass, fail, markit),
{
    match pass {
        Some(true) => marker(YieldOk::Yes, markit),
        Some(false) => marker(fail, markit),
        None => YieldOk::NoLimits,
    }
}

/// The verdict on a sample held against the limits of its parameter, if it
/// has any, and the limits that the verdict was reached with.
pub fn classify(
    entry: Option<Limits>,
    numbers: &Numbers,
    spec_yld_lim: Threshold,
    ctrl_yld_lim: Threshold,
    cpk: Option<i64>,
    cpk_lim: i64,
    mark: Marks,
) -> (ok: (YieldOk, Limits))
    ensures
        ok == classified(entry, numbers@, spec_yld_lim, ctrl_yld_lim, cpk, cpk_lim, mark),
{
    let limits: Limits = match entry {
        Some(limits) => limits,
        None => {
            return (YieldOk::NoLimits, Limits::new());
        },
    };
    if numbers.cnt().is_none() {
        return (YieldOk::NoLimits, limits);
    }
    let mut ok: YieldOk = stage_verdict(
        check_bounds(numbers, limits.lsl, limits.usl, &spec_yld_lim),
        YieldOk::SpecYieldNot,
        mark.contains(Mark::SpecYield),
    );
    if ok == YieldOk::NoLimits || ok == YieldOk::Yes {
        ok =
        stage_verdict(
            check_bounds(numbers, limits.lcl, limits.ucl, &ctrl_yld_lim),
            YieldOk::CtrlYieldNot,
            mark.contains(Mark::ControlYield),
        );
    }
    if ok == YieldOk::NoLimits || ok == YieldOk::Yes {
        let markit: bool = mark.contains(Mark::Cpk);
        let below: bool = match cpk {
            Some(c) => c < cpk_lim,
            None => false,
        };
        ok =
        if below {
            marker(YieldOk::CpkNot, markit)
        } else if limits.lcl.is_none() && limits.ucl.is_none() {
            marker(YieldOk::NoLimits, markit)
        } else {
            marker(YieldOk::Yes, markit)
        };
    }
    (ok, limits)
}

/// One entry of a limits table.
#[derive(Debug, Clone, PartialEq)]
pub struct Entry {
    /// The parameter's name.
    pub par: String,
    /// Its limits.
    pub limits: Limits,
}

/// The limits of the parameters, each under its name.
#[derive(Debug)]
pub struct LimitsTable {
    entries: Vec<Entry>,
}

/// Whether the entry at `i` is the first of `entries` under `name`.
pub open spec fn first_at(entries: Seq<Entry>, name: Seq<char>, i: int) -> bool {
    &&& 0 <= i < entries.len()
    &&& entries[i].par@ == name
    &&& forall|j: int| 0 <= j < i ==> entries[j].par@ != name
}

/// Whether an entry of `entries` is under `name`.
pub open spec fn listed(entries: Seq<Entry>, name: Seq<char>) -> bool {
    exists|i: int| first_at(entries, name, i)
}

/// The place of the first entry under `name`.
pub open spec fn place(entries: Seq<Entry>, name: Seq<char>) -> int {
    choose|i: int| first_at(entries, name, i)
}

/// An entry under `name` at `i` makes `name` listed.
proof fn lemma_listed(entries: Seq<Entry>, name: Seq<char>, i: int)
    requires
        0 <= i < entries.len(),
        entries[i].par@ == name,
    ensures
        listed(entries, name),
        place(entries, name) <= i,
    decreases i,
{
    if exists|j: int| 0 <= j < i && entries[j].par@ == name {
        let j = choose|j: int| 0 <= j < i && entries[j].par@ == name;
        lemma_listed(entries, name, j);
    } else {
        assert(first_at(entries, name, i));
    }
    let p = place(entries, name);
    assert(first_at(entries, name, p));
}

impl View for LimitsTable {
    type V = Map<Seq<char>, Limits>;

    closed spec fn view(&self) -> Map<Seq<char>, Limits> {
        Map::new(
            |name: Seq<char>| listed(self.entries@, name),
            |name: Seq<char>| self.entries@[place(self.entries@, name)].limits,
        )
    }
}

impl LimitsTable {
    /// A table without entries.
    pub fn new() -> (table: LimitsTable)
        ensures
            table@ == Map::<Seq<char>, Limits>::empty(),
    {
        let table = LimitsTable { entries: Vec::new() };
        assert(table@ =~= Map::<Seq<char>, Limits>::empty());
        table
    }

    /// Whether the table has no entry.
    pub fn is_empty(&self) -> (none: bool)
        ensures
            none == (self@ == Map::<Seq<char>, Limits>::empty()),
    {
        let none: bool = self.entries.len() == 0;
        proof {
            if none {
                assert(self@ =~= Map::<Seq<char>, Limits>::empty());
            } else {
                lemma_listed(self.entries@, self.entries@[0].par@, 0);
                assert(self@.dom().contains(self.entries@[0].par@));
            }
        }
        none
    }

    /// Where the first entry under `par` stands, if there is one.
    fn find(&self, par: &str) -> (at: Option<usize>)
        ensures
            at is Some ==> first_at(self.entries@, par@, at.unwrap() as int),
            at is None ==> !listed(self.entries@, par@),
            at is None ==> forall|j: int|
                0 <= j < self.entries@.len() ==> self.entries@[j].par@ != par@,
    {
        let mut i: usize = 0;
        while i < self.entries.len()
            invariant
                i <= self.entries@.len(),
                forall|j: int| 0 <= j < i ==> self.entries@[j].par@ != par@,
            decreases self.entries@.len() - i,
        {
            if crate::text::same(self.entries[i].par.as_str(), par) {
                return Some(i);
            }
            i += 1;
        }
        None
    }

    /// The limits under `par`, if the table has them.
    pub fn get(&self, par: &str) -> (entry: Option<Limits>)
        ensures
            entry == (if self@.dom().contains(par@) {
                Some(self@[par@])
            } else {
                None
            }),
    {
        match self.find(par) {
            Some(i) => {
                assert(first_at(self.entries@, par@, place(self.entries@, par@)));
                Some(self.entries[i].limits)
            },
            None => None,
        }
    }

    /// Puts `limits` under `par`, in place of what was there.
    pub fn insert(&mut self, par: String, limits: Limits)
        ensures
            final(self)@ == old(self)@.insert(par@, limits),
    {
        let ghost before = self.entries@;
        let ghost key = par@;
        let found: Option<usize> = self.find(par.as_str());
        let ghost at: int = match found {
            Some(i) => i as int,
            None => before.len() as int,
        };
        match found {
            Some(i) => {
                self.entries.set(i, Entry { par, limits });
            },
            None => {
                self.entries.push(Entry { par, limits });
            },
        }
        proof {
            let after = self.entries@;
            assert(after.len() > at && after[at].par@ == key);
            assert forall|j: int| 0 <= j < at implies after[j].par@ != key by {
                assert(after[j] == before[j]);
            }
            assert(first_at(after, key, at));
            assert forall|name: Seq<char>| name != key implies (listed(after, name) == listed(
                before,
                name,
            )) && (listed(before, name) ==> place(after, name) == place(before, name)) by {
                if listed(before, name) {
                    let j = place(before, name);
                    assert(first_at(before, name, j));
                    assert(j != at);
                    assert(after[j] == before[j]);
                    assert forall|k: int| 0 <= k < j implies after[k].par@ != name by {
                        if k != at {
                            assert(after[k] == before[k]);
                        }
                    }
                    assert(first_at(after, name, j));
                    let k = place(after, name);
                    assert(first_at(after, name, k));
                    assert(j == k);
                }
                if listed(after, name) {
                    let j = place(after, name);
                    assert(first_at(after, name, j));
                    assert(j != at);
                    assert(after[j] == before[j]);
                    assert forall|k: int| 0 <= k < j implies before[k].par@ != name by {
                        if k != at {
                            assert(after[k] == before[k]);
                        }
                    }
                    assert(first_at(before, name, j));
                }
            }
            assert(place(after, key) == at) by {
                assert(first_at(after, key, place(after, key)));
            }
            assert(self@ =~= old(self)@.insert(key, limits));
        }
    }

    /// The verdict on the sample of the parameter `par`, and the limits that
    /// it was reached with.
    pub fn check_limits(
        &self,
        par: &str,
        numbers: &Numbers,
        spec_yld_lim: Threshold,
        ctrl_yld_lim: Threshold,
        cpk: Option<i64>,
        cpk_lim: i64,
        mark: Marks,
    ) -> (ok: (YieldOk, Limits))
        ensures
            ok == classified(
                if self@.dom().contains(par@) {
                    Some(self@[par@])
                } else {
                    None
                },
                numbers@,
                spec_yld_lim,
                ctrl_yld_lim,
                cpk,
                cpk_lim,
                mark,
            ),
    {
        classify(self.get(par), numbers, spec_yld_lim, ctrl_yld_lim, cpk, cpk_lim, mark)
    }

    /// The filter of the parameter `par`: the one that its limits name, or
    /// else the general one, `flt`.
    pub fn get_filter(&self, par: &str, flt: &Filter) -> (filter: Filter)
        ensures
            filter == (if self@.dom().contains(par@) && self@[par@].filter() is Some {
                self@[par@].filter().unwrap()
            } else {
                *flt
            }),
    {
        match self.get(par) {
            None => *flt,
            Some(p) => {
                if let Some(k) = p.flt_iqr {
                    return Filter::IQR(k);
                }
                if let Some(k) = p.flt_zsc {
                    return Filter::ZScore(k);
                }
                match (p.flt_low, p.flt_upp) {
                    (Some(low), None) => Filter::Lower(low),
                    (None, Some(upp)) => Filter::Upper(upp),
                    (Some(low), Some(upp)) => Filter::Between(low, upp),
                    (None, None) => *flt,
                }
            },
        }
    }
}

/// One cell of a record of a limits file: its text, and the level of the
/// quantity it names, if it names one.
#[derive(Debug, Clone, PartialEq)]
pub struct Cell {
    pub text: String,
    pub level: Option<i64>,
}

/// Where the columns of a limits file stand, each if the file has it.
#[derive(Debug, Copy, Clone, PartialEq, Eq, Structural)]
pub struct LimitColumns {
    pub used: Option<usize>,
    pub par: Option<usize>,
    pub lsl: Option<usize>,
    pub tgt: Option<usize>,
    pub usl: Option<usize>,
    pub lcl: Option<usize>,
    pub ucl: Option<usize>,
    /// The first column of the filter, `<FIL`.
    pub fil: Option<usize>,
    /// The second column of the filter, `TER>`.
    pub ter: Option<usize>,
}

/// The place of the last of `headers` that reads `name` in upper case.
pub open spec fn last_header(headers: Seq<String>, name: Seq<char>) -> Option<usize>
    decreases headers.len(),
{
    if headers.len() == 0 {
        None
    } else if uppercase(headers.last()@) == name {
        Some((headers.len() - 1) as usize)
    } else {
        last_header(headers.drop_last(), name)
    }
}

/// Where the columns of a limits file with these headers stand.
pub open spec fn columns_of(headers: Seq<String>) -> LimitColumns {
    LimitColumns {
        used: last_header(headers, "USE"@),
        par: last_header(headers, "PAR"@),
        lsl: last_header(headers, "LSL"@),
        tgt: last_header(headers, "TGT"@),
        usl: last_header(headers, "USL"@),
        lcl: last_header(headers, "LCL"@),
        ucl: last_header(headers, "UCL"@),
        fil: last_header(headers, "<FIL"@),
        ter: last_header(headers, "TER>"@),
    }
}

/// The cell of `record` in the column `at`, if there is one.
pub open spec fn cell_at(record: Seq<Cell>, at: Option<usize>) -> Option<Cell> {
    match at {
        Some(i) => if i < record.len() {
            Some(record[i as int])
        } else {
            None
        },
        None => None,
    }
}

/// The level that `record` names in the column `at`.
pub open spec fn level_at(record: Seq<Cell>, at: Option<usize>) -> Option<i64> {
    match cell_at(record, at) {
        Some(cell) => cell.level,
        None => None,
    }
}

/// Whether the first filter cell of `record` reads `word`, and is read
/// before the second one.
pub open spec fn announces(record: Seq<Cell>, columns: LimitColumns, word: Seq<char>) -> bool {
    cell_at(record, columns.fil) is Some && cell_at(record, columns.fil).unwrap().text@ == word
        && columns.ter is Some && columns.fil.unwrap() < columns.ter.unwrap()
}

/// Whether the first filter cell of `record` names a level rather than a
/// kind of filter.
pub open spec fn names_bound(record: Seq<Cell>, columns: LimitColumns) -> bool {
    cell_at(record, columns.fil) is Some && cell_at(record, columns.fil).unwrap().text@ != "iqr"@
        && cell_at(record, columns.fil).unwrap().text@ != "zscore"@
}

/// The limits that `record` names. The first filter cell reads `iqr` or
/// `zscore`, and the second then is that filter's factor; or the two cells
/// are the lower and the upper bound of the explicit filter.
pub open spec fn limits_of(record: Seq<Cell>, columns: LimitColumns) -> Limits {
    let second = level_at(record, columns.ter);
    let iqr = announces(record, columns, "iqr"@);
    let zsc = announces(record, columns, "zscore"@);
    Limits {
        lsl: level_at(record, columns.lsl),
        tgt: level_at(record, columns.tgt),
        usl: level_at(record, columns.usl),
        lcl: level_at(record, columns.lcl),
        ucl: level_at(record, columns.ucl),
        flt_iqr: if iqr { second } else { None },
        flt_zsc: if !iqr && zsc { second } else { None },
        flt_low: if names_bound(record, columns) { level_at(record, columns.fil) } else { None },
        flt_upp: if !iqr && !zsc { second } else { None },
    }
}

/// Whether `record` is in use: its cell in the column of use is not empty.
pub open spec fn in_use(record: Seq<Cell>, columns: LimitColumns) -> bool {
    cell_at(record, columns.used) is Some && cell_at(record, columns.used).unwrap().text@.len() > 0
}

/// The parameter that `record` names; the empty name without such a cell.
pub open spec fn named(record: Seq<Cell>, columns: LimitColumns) -> Seq<char> {
    match cell_at(record, columns.par) {
        Some(cell) => cell.text@,
        None => Seq::empty(),
    }
}

/// Finds the last header that reads `name` in upper case.
fn find_header(headers: &Vec<String>, name: &str) -> (at: Option<usize>)
    ensures
        at == last_header(headers@, name@),
{
    let mut at: Option<usize> = None;
    let mut i: usize = 0;
    while i < headers.len()
        invariant
            i <= headers@.len(),
            at == last_header(headers@.take(i as int), name@),
        decreases headers@.len() - i,
    {
        proof {
            assert(headers@.take(i as int + 1).drop_last() =~= headers@.take(i as int));
        }
        let up: String = upper(headers[i].as_str());
        if same(up.as_str(), name) {
            at = Some(i);
        }
        i += 1;
    }
    proof {
        assert(headers@.take(i as int) =~= headers@);
    }
    at
}

/// The cell of `record` in the column `at`.
fn pick(record: &Vec<Cell>, at: Option<usize>) -> (cell: Option<&Cell>)
    ensures
        match cell {
            Some(c) => cell_at(record@, at) == Some(*c),
            None => cell_at(record@, at) is None,
        },
{
    match at {
        Some(i) => if i < record.len() {
            Some(&record[i])
        } else {
            None
        },
        None => None,
    }
}

/// The level that `record` names in the column `at`.
fn pick_level(record: &Vec<Cell>, at: Option<usize>) -> (level: Option<i64>)
    ensures
        level == level_at(record@, at),
{
    match pick(record, at) {
        Some(cell) => cell.level,
        None => None,
    }
}

impl LimitColumns {
    /// Where the columns of a limits file with these headers stand. The
    /// headers count in upper or lower case; of two alike the last one counts.
    pub fn from_headers(headers: &Vec<String>) -> (columns: LimitColumns)
        ensures
            columns == columns_of(headers@),
    {
        LimitColumns {
            used: find_header(headers, "USE"),
            par: find_header(headers, "PAR"),
            lsl: find_header(headers, "LSL"),
            tgt: find_header(headers, "TGT"),
            usl: find_header(headers, "USL"),
            lcl: find_header(headers, "LCL"),
            ucl: find_header(headers, "UCL"),
            fil: find_header(headers, "<FIL"),
            ter: find_header(headers, "TER>"),
        }
    }

    /// The limits that `record` names.
    pub fn limits(&self, record: &Vec<Cell>) -> (limits: Limits)
        ensures
            limits == limits_of(record@, *self),
    {
        let second: Option<i64> = pick_level(record, self.ter);
        let mut iqr: bool = false;
        let mut zsc: bool = false;
        let mut low: Option<i64> = None;
        match pick(record, self.fil) {
            Some(cell) => {
                let before: bool = match (self.fil, self.ter) {
                    (Some(f), Some(t)) => f < t,
                    _ => false,
                };
                if same(cell.text.as_str(), "iqr") {
                    iqr = before;
                } else if same(cell.text.as_str(), "zscore") {
                    zsc = before;
                } else {
                    low = cell.level;
                }
            },
            None => {},
        }
        Limits {
            lsl: pick_level(record, self.lsl),
            tgt: pick_level(record, self.tgt),
            usl: pick_level(record, self.usl),
            lcl: pick_level(record, self.lcl),
            ucl: pick_level(record, self.ucl),
            flt_iqr: if iqr { second } else { None },
            flt_zsc: if !iqr && zsc { second } else { None },
            flt_low: low,
            flt_upp: if !iqr && !zsc { second } else { None },
        }
    }
}

impl LimitsTable {
    /// Takes the limits of one record of a limits file into the table, under
    /// the parameter that the record names, if the record is in use.
    pub fn read_limits(&mut self, columns: &LimitColumns, record: &Vec<Cell>)
        ensures
            final(self)@ == (if in_use(record@, *columns) {
                old(self)@.insert(named(record@, *columns), limits_of(record@, *columns))
            } else {
                old(self)@
            }),
    {
        let used: bool = match pick(record, columns.used) {
            Some(cell) => cell.text.as_str().unicode_len() > 0,
            None => false,
        };
        if used {
            let par: String = match pick(record, columns.par) {
                Some(cell) => cell.text.clone(),
                None => String::new(),
            };
            self.insert(par, columns.limits(record));
        }
    }
}

/// A sample that fails its specification limits, with that stage marked, is
/// given `SpecYieldNot`, whatever it does at the later stages.
pub proof fn lemma_spec_failure_comes_first(
    limits: Limits,
    s: Seq<i64>,
    spec_yld_lim: Threshold,
    ctrl_yld_lim: Threshold,
    cpk: Option<i64>,
    cpk_lim: i64,
    mark: Marks,
)
    requires
        s.len() > 0,
        mark.has(Mark::SpecYield),
        passes(s, limits.lsl, limits.usl, spec_yld_lim) == Some(false),
    ensures
        verdict(limits, s, spec_yld_lim, ctrl_yld_lim, cpk, cpk_lim, mark)
            == YieldOk::SpecYieldNot,
        classified(Some(limits), s, spec_yld_lim, ctrl_yld_lim, cpk, cpk_lim, mark) == (
            YieldOk::SpecYieldNot,
            limits,
        ),
{
}

/// The failure of a stage that is not marked is never the verdict, and the
/// limits come back as they were: with no stage marked the verdict is
/// `NoLimits`.
pub proof fn lemma_unmarked_failure_is_no_verdict(
    entry: Option<Limits>,
    s: Seq<i64>,
    spec_yld_lim: Threshold,
    ctrl_yld_lim: Threshold,
    cpk: Option<i64>,
    cpk_lim: i64,
    mark: Marks,
)
    ensures
        ({
            let ok = classified(entry, s, spec_yld_lim, ctrl_yld_lim, cpk, cpk_lim, mark);
            &&& (!mark.has(Mark::SpecYield) ==> ok.0 != YieldOk::SpecYieldNot)
            &&& (!mark.has(Mark::ControlYield) ==> ok.0 != YieldOk::CtrlYieldNot)
            &&& (!mark.has(Mark::Cpk) ==> ok.0 != YieldOk::CpkNot)
            &&& (!mark.has(Mark::SpecYield) && !mark.has(Mark::ControlYield) && !mark.has(
                Mark::Cpk,
            ) ==> ok.0 == YieldOk::NoLimits)
            &&& (entry is Some ==> ok.1 == entry.unwrap())
            &&& (entry is None ==> ok.1 == Limits::missing())
        }),
{
}

} // verus!
