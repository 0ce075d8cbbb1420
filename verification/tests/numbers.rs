use qtablepdf::numbers::{Capability, Numbers, Offset, Quantile, Yield};
use qtablepdf::qtable::Filter;

fn readings(v: &[i64]) -> Vec<Option<i64>> {
    v.iter().map(|x| Some(*x)).collect()
}

#[test]
fn from_f64_sorts_ascending() {
    let n = Numbers::from_f64(vec![3, 1, 2, -5, 2]);
    assert_eq!(n.values(), vec![-5, 1, 2, 2, 3]);
}

#[test]
fn new_drops_unread_and_cut_off_readings() {
    let vals = vec![Some(5), None, Some(100), Some(1), Some(101), None];
    let n = Numbers::new(&vals, 100, &Filter::Off, None);
    assert_eq!(n.values(), vec![1, 5]);
}

#[test]
fn new_keeps_everything_under_the_greatest_cutoff() {
    let n = Numbers::new(&readings(&[7, -7, 0]), i64::MAX, &Filter::Off, None);
    assert_eq!(n.values(), vec![-7, 0, 7]);
}

#[test]
fn explicit_filters_are_strict() {
    let vals = readings(&[1, 2, 3, 4, 5]);
    assert_eq!(Numbers::new(&vals, 100, &Filter::Lower(2), None).values(), vec![3, 4, 5]);
    assert_eq!(Numbers::new(&vals, 100, &Filter::Upper(4), None).values(), vec![1, 2, 3]);
    assert_eq!(Numbers::new(&vals, 100, &Filter::Between(1, 5), None).values(), vec![2, 3, 4]);
    assert_eq!(Numbers::new(&vals, 100, &Filter::Between(5, 1), None).values(), Vec::<i64>::new());
}

#[test]
fn iqr_filter_removes_the_outlier() {
    let vals = readings(&[1, 2, 3, 4, 100]);
    let base = Numbers::new(&vals, i64::MAX, &Filter::Off, None);
    assert_eq!(base.p25(), Quantile::At(2));
    assert_eq!(base.p75(), Quantile::At(4));
    assert_eq!(base.iqr(), (Quantile::At(2), Quantile::At(4)));
    // factor 1.5 on a distance of 2: the fences are 2 - 3 and 4 + 3
    let spread = Some((2 - 3, 4 + 3));
    let kept = Numbers::new(&vals, i64::MAX, &Filter::IQR(15), spread);
    assert_eq!(kept.values(), vec![1, 2, 3, 4]);
}

#[test]
fn spread_filters_without_fences_keep_nothing() {
    let vals = readings(&[1, 2, 3]);
    assert_eq!(Numbers::new(&vals, 100, &Filter::IQR(15), None).values(), Vec::<i64>::new());
    assert_eq!(Numbers::new(&vals, 100, &Filter::ZScore(25), None).values(), Vec::<i64>::new());
    assert_eq!(Numbers::new(&vals, 100, &Filter::ZScore(25), Some((1, 3))).values(), vec![2]);
}

#[test]
fn filter_keeps_agrees_with_new() {
    assert!(Filter::Off.keeps(None, 5));
    assert!(!Filter::Lower(5).keeps(None, 5));
    assert!(Filter::Lower(5).keeps(None, 6));
    assert!(!Filter::Upper(5).keeps(None, 5));
    assert!(Filter::Between(1, 3).keeps(None, 2));
    assert!(!Filter::IQR(1).keeps(None, 2));
    assert!(Filter::IQR(1).keeps(Some((1, 3)), 2));
}

#[test]
fn empty_sample_has_no_statistics() {
    let n = Numbers::from_f64(vec![]);
    assert_eq!(n.len(), 0);
    assert_eq!(n.cnt(), None);
    assert_eq!(n.min(), None);
    assert_eq!(n.max(), None);
    assert_eq!(n.range(), None);
    assert_eq!(n.med(), Quantile::Undefined);
    assert_eq!(n.prc(1, 4), Quantile::Undefined);
    assert_eq!(n.yld(Some(1), Some(2)), None);
    assert_eq!(n.cpk(Some(1), Some(2)), Capability::Undefined);
    assert_eq!(n.cp(Some(1), Some(2)), Capability::Undefined);
    assert_eq!(n.bins_delta(11, &vec![]), Vec::<usize>::new());
}

#[test]
fn sample_of_one_is_its_own_min_max_and_median() {
    let n = Numbers::from_f64(vec![42]);
    assert_eq!(n.cnt(), Some(1));
    assert_eq!(n.min(), Some(42));
    assert_eq!(n.max(), Some(42));
    assert_eq!(n.range(), Some((42, 42)));
    assert_eq!(n.med(), Quantile::At(42));
    assert_eq!(n.p25(), Quantile::At(42));
    assert_eq!(n.cpk(Some(1), Some(2)), Capability::Undefined);
}

#[test]
fn sample_of_two_has_its_mean_for_median() {
    let n = Numbers::from_f64(vec![4, 2]);
    assert_eq!(n.med(), Quantile::Mean);
    assert_eq!(n.p75(), Quantile::Mean);
    assert_eq!(n.prc(9, 10), Quantile::Mean);
}

#[test]
fn percentile_as_fraction_equals_percentile_as_percent() {
    let n = Numbers::from_f64(vec![10, 20, 30, 40, 50]);
    assert_eq!(n.prc(1, 2), Quantile::At(30));
    assert_eq!(n.prc(50, 1), Quantile::At(30));
    assert_eq!(n.prc(1, 2), n.prc(50, 1));
    assert_eq!(n.med(), Quantile::At(30));
}

#[test]
fn percentile_ranks_round_down() {
    let n = Numbers::from_f64(vec![10, 20, 30, 40, 50]);
    assert_eq!(n.p25(), Quantile::At(20));
    assert_eq!(n.p75(), Quantile::At(40));
    assert_eq!(n.prc(0, 1), Quantile::At(10));
    assert_eq!(n.prc(99, 100), Quantile::At(50));
    assert_eq!(n.prc(99, 1), Quantile::At(50));
    assert_eq!(n.prc(1, 1), Quantile::At(10));
    assert_eq!(n.prc(3, 10), Quantile::At(20));
}

#[test]
fn percentile_of_one_or_more_after_scaling_is_undefined() {
    let n = Numbers::from_f64(vec![10, 20, 30, 40, 50]);
    assert_eq!(n.prc(100, 1), Quantile::Undefined);
    assert_eq!(n.prc(250, 1), Quantile::Undefined);
    assert_eq!(n.prc(1, 0), Quantile::Undefined);
    assert_eq!(n.prc(0, 0), Quantile::Undefined);
}

#[test]
fn yield_counts_readings_outside_the_bounds() {
    let n = Numbers::from_f64(vec![1, 2, 3, 4, 5]);
    assert_eq!(n.yld(Some(2), Some(4)), Some(Yield { total: 5, below: 1, above: 1 }));
    assert_eq!(n.yld(Some(3), None), Some(Yield { total: 5, below: 2, above: 0 }));
    assert_eq!(n.yld(None, Some(0)), Some(Yield { total: 5, below: 0, above: 5 }));
    assert_eq!(n.yld(None, None), None);
}

#[test]
fn capability_forms_follow_the_bounds() {
    let n = Numbers::from_f64(vec![1, 2, 3]);
    assert_eq!(n.cpk(Some(0), Some(4)), Capability::Nearer(0, 4));
    assert_eq!(n.cpk(None, Some(4)), Capability::Upper(4));
    assert_eq!(n.cpk(Some(0), None), Capability::Lower(0));
    assert_eq!(n.cpk(None, None), Capability::Undefined);
    assert_eq!(n.cp(Some(0), Some(4)), Capability::Width(0, 4));
    assert_eq!(n.cp(None, Some(4)), Capability::Upper(4));
    assert_eq!(n.cp(Some(0), None), Capability::Lower(0));
    assert_eq!(n.cp(None, None), Capability::Undefined);
}

#[test]
fn k_picks_the_side_of_the_target() {
    let n = Numbers::from_f64(vec![1, 2, 3]);
    assert_eq!(n.k(Some(2), Some(0), Some(2), Some(4)), Offset::Below { tgt: 2, lsl: 0 });
    assert_eq!(n.k(Some(3), Some(0), Some(2), Some(4)), Offset::Above { tgt: 2, usl: 4 });
    assert_eq!(n.k(Some(1), None, Some(2), Some(4)), Offset::Above { tgt: 2, usl: 4 });
    assert_eq!(n.k(Some(3), Some(0), Some(2), None), Offset::Below { tgt: 2, lsl: 0 });
    assert_eq!(n.k(Some(3), Some(0), None, Some(4)), Offset::Undefined);
    assert_eq!(n.k(Some(3), None, Some(2), None), Offset::Undefined);
    assert_eq!(n.k(None, Some(0), Some(2), Some(4)), Offset::Undefined);
}

#[test]
fn bins_move_on_by_one_bin_at_most() {
    // readings 0, 11, .., 110 with equally wide bins that end at 10, 20, .., 90
    let data: Vec<i64> = (0..=10).map(|x| x * 11).collect();
    let edges: Vec<i64> = (1..=9).map(|x| x * 10).collect();
    let n = Numbers::from_f64(data);
    assert_eq!(n.bins_delta(11, &edges), vec![1, 1, 1, 1, 1, 1, 1, 1, 1, 2, 0]);
}

#[test]
fn bins_count_where_the_pass_stands() {
    let n = Numbers::from_f64(vec![0, 1, 2, 50, 51, 100]);
    let edges: Vec<i64> = vec![9, 18, 27, 36, 45, 54, 63, 72, 81];
    // 50 only moves on to the second bin, 51 to the third, 100 to the fourth
    assert_eq!(n.bins_delta(11, &edges), vec![3, 1, 1, 1, 0, 0, 0, 0, 0, 0, 0]);
}

#[test]
fn bins_default_to_eleven_and_keep_a_larger_count() {
    let n = Numbers::from_f64(vec![0, 100]);
    let edges: Vec<i64> = vec![9, 18, 27, 36, 45, 54, 63, 72, 81];
    assert_eq!(n.bins_delta(2, &edges).len(), 11);
    assert_eq!(n.bins_delta(0, &edges).len(), 11);
    assert_eq!(n.bins_delta(3, &edges), vec![1, 1, 0]);
    assert_eq!(n.bins_delta(20, &edges).len(), 20);
}

#[test]
fn bins_of_identical_readings_are_none() {
    let n = Numbers::from_f64(vec![5, 5, 5]);
    assert_eq!(n.bins_delta(11, &vec![5, 5, 5]), Vec::<usize>::new());
}

#[test]
fn clone_keeps_the_readings() {
    let n = Numbers::from_f64(vec![2, 1]);
    assert_eq!(n.clone().values(), vec![1, 2]);
    assert_eq!(n.clone(), n);
}
