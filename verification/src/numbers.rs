//! A sorted sample of readings and its order statistics.
use crate::qtable::Filter;
use vstd::prelude::*;

verus! {

/// Whether `s` never descends.
pub open spec fn ascending(s: Seq<i64>) -> bool {
    forall|i: int, j: int| 0 <= i <= j < s.len() ==> s[i] <= s[j]
}

/// The reading that `o` adds to a sample, if any: one that was read (`Some`),
/// lies under the cutoff, and that the filter admits.
pub open spec fn admitted(
    o: Option<i64>,
    float_limit: i64,
    filter_by: Filter,
    spread: Option<(i64, i64)>,
) -> Option<i64> {
    match o {
        Some(v) => if v < float_limit && filter_by.admits(spread, v) {
            Some(v)
        } else {
            None
        },
        None => None,
    }
}

/// The readings that make up a sample, in the order of the input.
pub open spec fn kept(
    vals: Seq<Option<i64>>,
    float_limit: i64,
    filter_by: Filter,
    spread: Option<(i64, i64)>,
) -> Seq<i64> {
    vals.filter_map(|o: Option<i64>| admitted(o, float_limit, filter_by, spread))
}

/// A statistic that is one of the readings, or that arithmetic on them gives.
#[derive(Debug, Copy, Clone, PartialEq, Eq, Structural)]
pub enum Quantile {
    /// The sample has no such statistic.
    Undefined,
    /// This reading.
    At(i64),
    /// The mean of the sample, which has two readings.
    Mean,
}

/// How many readings of a sample miss a pair of bounds.
#[derive(Debug, Copy, Clone, PartialEq, Eq, Structural)]
pub struct Yield {
    /// The size of the sample.
    pub total: usize,
    /// The readings under the lower bound.
    pub below: usize,
    /// The readings over the upper bound.
    pub above: usize,
}

/// The distance that a capability index measures; a caller divides it by
/// three standard deviations, `Width` by six.
#[derive(Debug, Copy, Clone, PartialEq, Eq, Structural)]
pub enum Capability {
    /// No bound, or no reading.
    Undefined,
    /// From this lower bound up to the mean.
    Lower(i64),
    /// From the mean up to this upper bound.
    Upper(i64),
    /// The smaller of the two distances from the mean to these bounds.
    Nearer(i64, i64),
    /// From the lower bound to the upper.
    Width(i64, i64),
}

/// The ratio that the index `k` is: the distance from the target to the mean,
/// over the distance from the target to a bound.
#[derive(Debug, Copy, Clone, PartialEq, Eq, Structural)]
pub enum Offset {
    /// No target, no bound, or no mean.
    Undefined,
    /// Over the distance from this lower bound up to the target.
    Below { tgt: i64, lsl: i64 },
    /// Over the distance from the target up to this upper bound.
    Above { tgt: i64, usl: i64 },
}

/// A figure of a sample that is still to be written out. A level is written
/// as the quantity it stands for; the others take arithmetic on the sample.
#[derive(Debug, Copy, Clone, PartialEq, Eq, Structural)]
pub enum Figure {
    /// The quantity of this level.
    Level(i64),
    /// The size of the sample.
    Count(usize),
    /// The mean.
    Mean,
    /// The variance.
    Variance,
    /// The standard deviation.
    Sdev,
    /// From the quantity of the first level to that of the second.
    Range(i64, i64),
    /// The yield in percent: a hundred times the readings inside the bounds,
    /// over the size of the sample.
    Yield(Yield),
    /// The index `k`.
    K(Offset),
    /// The index `cpk`.
    Cpk(Capability),
    /// The index `cp`.
    Cp(Capability),
}

/// How many readings of `s` lie under `lim`.
pub open spec fn count_under(s: Seq<i64>, lim: i64) -> nat
    decreases s.len(),
{
    if s.len() == 0 {
        0
    } else {
        count_under(s.drop_last(), lim) + if s.last() < lim { 1nat } else { 0nat }
    }
}

/// How many readings of `s` lie over `lim`.
pub open spec fn count_over(s: Seq<i64>, lim: i64) -> nat
    decreases s.len(),
{
    if s.len() == 0 {
        0
    } else {
        count_over(s.drop_last(), lim) + if s.last() > lim { 1nat } else { 0nat }
    }
}

/// The percentile `num / den` of the sample `s`. A fraction of one or more is
/// read as a percentage; what is then still one or more has no percentile. A
/// sample of two has its mean for every percentile; a larger one the reading
/// whose rank is the fraction of the size, rounded down.
pub open spec fn percentile(s: Seq<i64>, num: u64, den: u64) -> Quantile {
    let scaled = if num >= den { 100 * den } else { den as int };
    if num >= scaled {
        Quantile::Undefined
    } else if s.len() == 0 {
        Quantile::Undefined
    } else if s.len() == 1 {
        Quantile::At(s[0])
    } else if s.len() == 2 {
        Quantile::Mean
    } else {
        Quantile::At(s[(num * s.len()) / scaled])
    }
}

/// The yield counts of `s` against the bounds, where one of them is defined
/// and `s` has a reading.
pub open spec fn yield_of(s: Seq<i64>, lowlim: Option<i64>, upplim: Option<i64>) -> Option<Yield> {
    if (lowlim is None && upplim is None) || s.len() == 0 {
        None
    } else {
        Some(
            Yield {
                total: s.len() as usize,
                below: match lowlim {
                    Some(lo) => count_under(s, lo) as usize,
                    None => 0,
                },
                above: match upplim {
                    Some(hi) => count_over(s, hi) as usize,
                    None => 0,
                },
            },
        )
    }
}

/// The distance that the index `cpk` measures. A sample without two
/// readings has no standard deviation, and so no index.
pub open spec fn cpk_of(s: Seq<i64>, lsl: Option<i64>, usl: Option<i64>) -> Capability {
    if s.len() < 2 {
        Capability::Undefined
    } else {
        match (lsl, usl) {
            (Some(lo), Some(hi)) => Capability::Nearer(lo, hi),
            (None, Some(hi)) => Capability::Upper(hi),
            (Some(lo), None) => Capability::Lower(lo),
            (None, None) => Capability::Undefined,
        }
    }
}

/// The distance that the index `cp` measures. A sample without two readings
/// has no standard deviation, and so no index.
pub open spec fn cp_of(s: Seq<i64>, lsl: Option<i64>, usl: Option<i64>) -> Capability {
    if s.len() < 2 {
        Capability::Undefined
    } else {
        match (lsl, usl) {
            (Some(lo), Some(hi)) => Capability::Width(lo, hi),
            (None, Some(hi)) => Capability::Upper(hi),
            (Some(lo), None) => Capability::Lower(lo),
            (None, None) => Capability::Undefined,
        }
    }
}

/// The ratio that the index `k` is, for a sample with the mean `mean`.
pub open spec fn k_of(mean: Option<i64>, lsl: Option<i64>, tgt: Option<i64>, usl: Option<i64>) -> Offset {
    match (mean, tgt) {
        (Some(m), Some(t)) => match (lsl, usl) {
            (Some(lo), Some(hi)) => if m <= t {
                Offset::Below { tgt: t, lsl: lo }
            } else {
                Offset::Above { tgt: t, usl: hi }
            },
            (None, Some(hi)) => Offset::Above { tgt: t, usl: hi },
            (Some(lo), None) => Offset::Below { tgt: t, lsl: lo },
            (None, None) => Offset::Undefined,
        },
        _ => Offset::Undefined,
    }
}

/// The number of bins of a histogram that was asked to have `n`.
pub open spec fn bin_count(n: usize) -> usize {
    if n < 3 {
        11
    } else {
        n
    }
}

/// One pass over the readings `s` of a histogram with `size` bins: the bin
/// that the last reading fell in, and the counts. A reading over the upper
/// edge of the current bin moves on by one bin, never into the last bin nor
/// past the edges given; then it is counted where the pass stands.
pub open spec fn binned(s: Seq<i64>, size: usize, edges: Seq<i64>) -> (int, Seq<usize>)
    decreases s.len(),
{
    if s.len() == 0 {
        (0, Seq::new(size as nat, |j: int| 0usize))
    } else {
        let (at, bins) = binned(s.drop_last(), size, edges);
        let next = if at < edges.len() && at + 2 < size && s.last() > edges[at] {
            at + 1
        } else {
            at
        };
        (next, bins.update(next, (bins[next] + 1) as usize))
    }
}

/// The counts of a histogram of `s` that was asked to have `n` bins, whose
/// bin `j` ends at `edges[j]`. A sample without two distinct readings has no
/// histogram.
pub open spec fn bins_of(s: Seq<i64>, n: usize, edges: Seq<i64>) -> Seq<usize> {
    if s.len() == 0 || s[0] == s.last() {
        Seq::empty()
    } else {
        binned(s, bin_count(n), edges).1
    }
}

proof fn lemma_binned(s: Seq<i64>, size: usize, edges: Seq<i64>)
    requires
        size >= 3,
    ensures
        0 <= binned(s, size, edges).0 < size,
        binned(s, size, edges).1.len() == size,
        forall|j: int| 0 <= j < size ==> #[trigger] binned(s, size, edges).1[j] <= s.len(),
    decreases s.len(),
{
    if s.len() > 0 {
        lemma_binned(s.drop_last(), size, edges);
    }
}

/// A fraction under one names the same percentile as the percentage of a
/// hundred times as much.
pub proof fn lemma_percentile_of_percent(s: Seq<i64>, num: u64, den: u64)
    requires
        num < den,
        den <= 100 * num <= u64::MAX,
    ensures
        percentile(s, (100 * num) as u64, den) == percentile(s, num, den),
{
    if s.len() > 2 {
        let n = s.len() as int;
        assert((100 * num * n) / (100 * den) == (num * n) / (den as int)) by (nonlinear_arith)
            requires
                den > 0,
                num >= 0,
                n >= 0,
        ;
        assert(((100 * num) as u64) * s.len() == 100 * num * n) by (nonlinear_arith)
            requires
                (100 * num) as u64 == 100 * num,
                n == s.len(),
        ;
    }
}

/// An empty sample has no least and no greatest reading, no median, no
/// percentile, no yield and no capability index; a sample of one has its
/// reading for each of the first three, and a sample of two its mean for
/// median.
pub proof fn lemma_small_samples(s: Seq<i64>, low: Option<i64>, upp: Option<i64>, num: u64, den: u64)
    ensures
        s.len() == 0 ==> percentile(s, num, den) == Quantile::Undefined && yield_of(s, low, upp)
            is None && cpk_of(s, low, upp) == Capability::Undefined && cp_of(s, low, upp)
            == Capability::Undefined,
        s.len() == 1 ==> percentile(s, 1, 2) == Quantile::At(s[0]),
        s.len() == 2 ==> percentile(s, 1, 2) == Quantile::Mean,
{
}

/// With both specification limits and two readings or more, `cpk` measures
/// the nearer of the two limits from the mean and `cp` the distance between
/// them: the first, over three standard deviations, is then at most the
/// second over six.
pub proof fn lemma_two_sided_indices(s: Seq<i64>, lsl: i64, usl: i64)
    requires
        s.len() >= 2,
    ensures
        cpk_of(s, Some(lsl), Some(usl)) == Capability::Nearer(lsl, usl),
        cp_of(s, Some(lsl), Some(usl)) == Capability::Width(lsl, usl),
{
}

/// A sample: readings in ascending order.
#[derive(Debug, PartialEq, Eq)]
pub struct Numbers {
    data: Vec<i64>,
}

impl View for Numbers {
    type V = Seq<i64>;

    closed spec fn view(&self) -> Seq<i64> {
        self.data@
    }
}

impl Clone for Numbers {
    fn clone(&self) -> (copy: Numbers)
        ensures
            copy@ == self@,
    {
        proof {
            use_type_invariant(self);
        }
        Numbers { data: self.data.clone() }
    }
}

/// Orders the readings with `sort` of the standard library's slices, which
/// leaves the same readings in ascending order.
#[verifier::external_body]
fn sort_levels(data: &mut Vec<i64>)
    ensures
        ascending(final(data)@),
        final(data)@.to_multiset() == old(data)@.to_multiset(),
{
    data.sort();
}

impl Numbers {
    #[verifier::type_invariant]
    spec fn inv(&self) -> bool {
        ascending(self.data@)
    }

    /// The sample of the readings that pass the cutoff and the filter.
    pub fn new(
        vals: &Vec<Option<i64>>,
        float_limit: i64,
        filter_by: &Filter,
        spread: Option<(i64, i64)>,
    ) -> (numbers: Numbers)
        ensures
            ascending(numbers@),
            numbers@.to_multiset() == kept(vals@, float_limit, *filter_by, spread).to_multiset(),
    {
        let mut data: Vec<i64> = Vec::new();
        let ghost pick = |o: Option<i64>| admitted(o, float_limit, *filter_by, spread);
        let mut i: usize = 0;
        while i < vals.len()
            invariant
                i <= vals.len(),
                forall|o: Option<i64>|
                    #[trigger] pick(o) == admitted(o, float_limit, *filter_by, spread),
                data@ == vals@.take(i as int).filter_map(pick),
            decreases vals.len() - i,
        {
            let ghost before = data@;
            let ghost step = vals@.take(i as int + 1).filter_map(pick);
            proof {
                vals@.lemma_filter_map_take_succ(pick, i as int);
            }
            match vals[i] {
                Some(v) => {
                    if v < float_limit && filter_by.keeps(spread, v) {
                        data.push(v);
                    }
                },
                None => {},
            }
            i += 1;
            assert(data@ =~= step);
        }
        proof {
            assert(vals@.take(vals.len() as int) =~= vals@);
        }
        Numbers::from_f64(data)
    }

    /// The sample that holds exactly the given readings.
    pub fn from_f64(data: Vec<i64>) -> (numbers: Numbers)
        ensures
            ascending(numbers@),
            numbers@.to_multiset() == data@.to_multiset(),
    {
        let mut data = data;
        sort_levels(&mut data);
        Numbers { data }
    }

    /// The readings, in ascending order.
    pub fn values(&self) -> (data: Vec<i64>)
        ensures
            data@ == self@,
            ascending(data@),
    {
        proof {
            use_type_invariant(self);
        }
        self.data.clone()
    }

    /// The size of the sample.
    pub fn len(&self) -> (size: usize)
        ensures
            size == self@.len(),
    {
        self.data.len()
    }

    /// The size of the sample; an empty sample has none.
    pub fn cnt(&self) -> (count: Option<usize>)
        ensures
            count == (if self@.len() == 0 { None } else { Some(self@.len() as usize) }),
    {
        if self.data.len() == 0 {
            None
        } else {
            Some(self.data.len())
        }
    }

    /// The least reading; an empty sample has none.
    pub fn min(&self) -> (least: Option<i64>)
        ensures
            self@.len() == 0 ==> least is None,
            self@.len() > 0 ==> least == Some(self@[0]),
            forall|i: int| 0 <= i < self@.len() ==> least.unwrap() <= #[trigger] self@[i],
    {
        proof {
            use_type_invariant(self);
        }
        if self.data.len() == 0 {
            None
        } else {
            Some(self.data[0])
        }
    }

    /// The greatest reading; an empty sample has none.
    pub fn max(&self) -> (greatest: Option<i64>)
        ensures
            self@.len() == 0 ==> greatest is None,
            self@.len() > 0 ==> greatest == Some(self@[self@.len() - 1]),
            forall|i: int| 0 <= i < self@.len() ==> #[trigger] self@[i] <= greatest.unwrap(),
    {
        proof {
            use_type_invariant(self);
        }
        if self.data.len() == 0 {
            None
        } else {
            Some(self.data[self.data.len() - 1])
        }
    }

    /// The least and the greatest reading; an empty sample has none.
    pub fn range(&self) -> (ends: Option<(i64, i64)>)
        ensures
            self@.len() == 0 ==> ends is None,
            self@.len() > 0 ==> ends == Some((self@[0], self@[self@.len() - 1])),
    {
        if self.data.len() == 0 {
            None
        } else {
            Some((self.data[0], self.data[self.data.len() - 1]))
        }
    }

    /// The percentile `num / den`.
    pub fn prc(&self, num: u64, den: u64) -> (q: Quantile)
        ensures
            q == percentile(self@, num, den),
    {
        let scaled: u128 = if num >= den {
            100u128 * (den as u128)
        } else {
            den as u128
        };
        if (num as u128) >= scaled {
            return Quantile::Undefined;
        }
        let len: usize = self.data.len();
        if len == 0 {
            Quantile::Undefined
        } else if len == 1 {
            Quantile::At(self.data[0])
        } else if len == 2 {
            Quantile::Mean
        } else {
            assert((num as int) * (len as int) <= 0xffff_ffff_ffff_ffff * 0xffff_ffff_ffff_ffff)
                by (nonlinear_arith)
                requires
                    0 <= num <= 0xffff_ffff_ffff_ffff,
                    0 <= len <= 0xffff_ffff_ffff_ffff,
            ;
            let product: u128 = (num as u128) * (len as u128);
            let rank: u128 = product / scaled;
            assert(rank < len) by (nonlinear_arith)
                requires
                    rank == (num as int * len as int) / (scaled as int),
                    0 <= num < scaled,
                    0 < len,
            ;
            Quantile::At(self.data[rank as usize])
        }
    }

    /// The lower quartile.
    pub fn p25(&self) -> (q: Quantile)
        ensures
            q == percentile(self@, 1, 4),
    {
        self.prc(1, 4)
    }

    /// The upper quartile.
    pub fn p75(&self) -> (q: Quantile)
        ensures
            q == percentile(self@, 3, 4),
    {
        self.prc(3, 4)
    }

    /// The two quartiles, lower and upper, whose distance is the
    /// interquartile range.
    pub fn iqr(&self) -> (q: (Quantile, Quantile))
        ensures
            q == (percentile(self@, 1, 4), percentile(self@, 3, 4)),
    {
        (self.prc(1, 4), self.prc(3, 4))
    }

    /// The median.
    pub fn med(&self) -> (q: Quantile)
        ensures
            q == percentile(self@, 1, 2),
            self@.len() == 0 ==> q == Quantile::Undefined,
            self@.len() == 1 ==> q == Quantile::At(self@[0]),
            self@.len() == 2 ==> q == Quantile::Mean,
            self@.len() > 2 ==> q == Quantile::At(self@[self@.len() as int / 2]),
    {
        self.prc(1, 2)
    }

    /// The yield counts of the sample against a pair of bounds; none if
    /// neither bound is defined or the sample is empty.
    pub fn yld(&self, lowlim: Option<i64>, upplim: Option<i64>) -> (y: Option<Yield>)
        ensures
            y == yield_of(self@, lowlim, upplim),
    {
        if lowlim.is_none() && upplim.is_none() {
            return None;
        }
        let len: usize = self.data.len();
        if len == 0 {
            return None;
        }
        let mut below: usize = 0;
        let mut above: usize = 0;
        let mut i: usize = 0;
        while i < len
            invariant
                len == self.data.len(),
                i <= len,
                below <= i,
                above <= i,
                below == match lowlim {
                    Some(lo) => count_under(self.data@.take(i as int), lo),
                    None => 0,
                },
                above == match upplim {
                    Some(hi) => count_over(self.data@.take(i as int), hi),
                    None => 0,
                },
            decreases len - i,
        {
            let v: i64 = self.data[i];
            proof {
                assert(self.data@.take(i as int + 1).drop_last() =~= self.data@.take(i as int));
            }
            match lowlim {
                Some(lo) => {
                    if v < lo {
                        below += 1;
                    }
                },
                None => {},
            }
            match upplim {
                Some(hi) => {
                    if v > hi {
                        above += 1;
                    }
                },
                None => {},
            }
            i += 1;
        }
        proof {
            assert(self.data@.take(len as int) =~= self.data@);
        }
        Some(Yield { total: len, below, above })
    }

    /// The distance that the index `cpk` measures.
    pub fn cpk(&self, lsl: Option<i64>, usl: Option<i64>) -> (c: Capability)
        ensures
            c == cpk_of(self@, lsl, usl),
    {
        if self.data.len() < 2 {
            return Capability::Undefined;
        }
        match (lsl, usl) {
            (Some(lo), Some(hi)) => Capability::Nearer(lo, hi),
            (None, Some(hi)) => Capability::Upper(hi),
            (Some(lo), None) => Capability::Lower(lo),
            (None, None) => Capability::Undefined,
        }
    }

    /// The distance that the index `cp` measures.
    pub fn cp(&self, lsl: Option<i64>, usl: Option<i64>) -> (c: Capability)
        ensures
            c == cp_of(self@, lsl, usl),
    {
        if self.data.len() < 2 {
            return Capability::Undefined;
        }
        match (lsl, usl) {
            (Some(lo), Some(hi)) => Capability::Width(lo, hi),
            (None, Some(hi)) => Capability::Upper(hi),
            (Some(lo), None) => Capability::Lower(lo),
            (None, None) => Capability::Undefined,
        }
    }

    /// The ratio that the index `k` is. `mean` is the mean of the sample, and
    /// is none for an empty one.
    pub fn k(&self, mean: Option<i64>, lsl: Option<i64>, tgt: Option<i64>, usl: Option<i64>) -> (k: Offset)
        ensures
            k == k_of(mean, lsl, tgt, usl),
    {
        match (mean, tgt) {
            (Some(m), Some(t)) => match (lsl, usl) {
                (Some(lo), Some(hi)) => if m <= t {
                    Offset::Below { tgt: t, lsl: lo }
                } else {
                    Offset::Above { tgt: t, usl: hi }
                },
                (None, Some(hi)) => Offset::Above { tgt: t, usl: hi },
                (Some(lo), None) => Offset::Below { tgt: t, lsl: lo },
                (None, None) => Offset::Undefined,
            },
            _ => Offset::Undefined,
        }
    }

    /// The counts of a histogram that was asked to have `n` bins. Bin `j` ends
    /// at the level `edges[j]`; the bins are equally wide, so a caller derives
    /// the edges from the least and the greatest reading.
    pub fn bins_delta(&self, n: usize, edges: &Vec<i64>) -> (bins: Vec<usize>)
        ensures
            bins@ == bins_of(self@, n, edges@),
    {
        let len: usize = self.data.len();
        if len == 0 || self.data[0] == self.data[len - 1] {
            return Vec::new();
        }
        let size: usize = if n < 3 { 11 } else { n };
        let mut bins: Vec<usize> = vec![0usize; size];
        assert(bins@ =~= binned(self.data@.take(0), size, edges@).1);
        let mut at: usize = 0;
        let mut i: usize = 0;
        while i < len
            invariant
                len == self.data.len(),
                size >= 3,
                i <= len,
                at == binned(self.data@.take(i as int), size, edges@).0,
                bins@ == binned(self.data@.take(i as int), size, edges@).1,
            decreases len - i,
        {
            proof {
                lemma_binned(self.data@.take(i as int), size, edges@);
                assert(self.data@.take(i as int + 1).drop_last() =~= self.data@.take(i as int));
            }
            let v: i64 = self.data[i];
            if at < edges.len() && at < size - 2 && v > edges[at] {
                at += 1;
            }
            let count: usize = bins[at];
            bins.set(at, count + 1);
            i += 1;
        }
        proof {
            assert(self.data@.take(len as int) =~= self.data@);
        }
        bins
    }
}

} // verus!
