use qtablepdf::chart::{
    add_limits, boxplot, compute_lef_rig_x, cpkplot, histogram, plot_borders_and_check_empty,
    CpkPlot, Domain, RefLine, Tick,
};
use qtablepdf::limits::Limits;
use qtablepdf::numbers::{Numbers, Quantile};
use qtablepdf::pdf::Tint;
use qtablepdf::qtable::{Align, Show, Shows};

fn limits() -> Limits {
    let mut l = Limits::new();
    l.lsl = Some(0);
    l.tgt = Some(40);
    l.usl = Some(100);
    l.lcl = Some(20);
    l.ucl = Some(45);
    l
}

fn sample() -> Numbers {
    Numbers::from_f64(vec![10, 30, 50, 20, 40])
}

#[test]
fn span_aligned_to_limits() {
    let d = compute_lef_rig_x(&sample(), &limits(), Align::SpecLimits, Shows::all());
    assert_eq!(d, Domain { lef: Some(0), rig: Some(100), centre: None });
    let d = compute_lef_rig_x(&sample(), &limits(), Align::ControlLimits, Shows::all());
    assert_eq!(d, Domain { lef: Some(20), rig: Some(45), centre: None });
    let d = compute_lef_rig_x(&sample(), &Limits::new(), Align::SpecLimits, Shows::all());
    assert_eq!(d, Domain { lef: Some(10), rig: Some(50), centre: None });
    let empty = Numbers::from_f64(vec![]);
    let d = compute_lef_rig_x(&empty, &Limits::new(), Align::ControlLimits, Shows::all());
    assert_eq!(d, Domain { lef: None, rig: None, centre: None });
}

#[test]
fn span_fitted_to_what_is_shown() {
    let d = compute_lef_rig_x(&sample(), &limits(), Align::FitValues, Shows::all());
    assert_eq!(d, Domain { lef: Some(0), rig: Some(100), centre: None });
    let d = compute_lef_rig_x(&sample(), &limits(), Align::FitValues, Shows::empty());
    assert_eq!(d, Domain { lef: Some(10), rig: Some(50), centre: None });
    let mut only_control = Shows::empty();
    only_control.insert(Show::ControlLimits);
    let d = compute_lef_rig_x(&sample(), &limits(), Align::FitValues, only_control);
    assert_eq!(d, Domain { lef: Some(10), rig: Some(50), centre: None });
    let mut l = limits();
    l.usl = None;
    let d = compute_lef_rig_x(&sample(), &l, Align::FitValues, Shows::all());
    assert_eq!(d, Domain { lef: Some(0), rig: None, centre: None });
}

#[test]
fn span_centred_on_the_target() {
    let d = compute_lef_rig_x(&sample(), &limits(), Align::Targets, Shows::all());
    assert_eq!(d, Domain { lef: Some(0), rig: Some(100), centre: Some(40) });
    let mut l = limits();
    l.tgt = None;
    let mut no_target = Shows::all();
    no_target.targets = false;
    let d = compute_lef_rig_x(&sample(), &l, Align::Targets, no_target);
    assert_eq!(d, Domain { lef: Some(0), rig: Some(100), centre: None });
}

#[test]
fn reference_lines_in_the_order_they_are_drawn() {
    let lines = add_limits(&sample(), &limits(), Shows::all());
    assert_eq!(
        lines,
        vec![
            RefLine { at: 20, tint: Tint::YellowOrange, tick: Tick::After },
            RefLine { at: 45, tint: Tint::YellowOrange, tick: Tick::Before },
            RefLine { at: 0, tint: Tint::Blue, tick: Tick::After },
            RefLine { at: 100, tint: Tint::Blue, tick: Tick::Before },
            RefLine { at: 40, tint: Tint::Green, tick: Tick::Without },
        ]
    );
}

#[test]
fn reference_lines_only_where_shown_and_defined() {
    let mut l = limits();
    l.lcl = Some(10);
    l.ucl = None;
    l.lsl = Some(11);
    let mut show = Shows::all();
    show.targets = false;
    assert_eq!(
        add_limits(&sample(), &l, show),
        vec![
            RefLine { at: 10, tint: Tint::LightBlue, tick: Tick::After },
            RefLine { at: 11, tint: Tint::Red, tick: Tick::After },
            RefLine { at: 100, tint: Tint::Blue, tick: Tick::Before },
        ]
    );
    assert_eq!(add_limits(&sample(), &l, Shows::empty()), vec![]);
    assert_eq!(add_limits(&Numbers::from_f64(vec![]), &l, Shows::all()), vec![]);
}

#[test]
fn empty_sample_has_no_chart() {
    let empty = Numbers::from_f64(vec![]);
    assert!(plot_borders_and_check_empty(&empty));
    assert!(!plot_borders_and_check_empty(&sample()));
    assert_eq!(boxplot(&empty, &limits(), Align::SpecLimits, Shows::all()), None);
    assert_eq!(histogram(&empty, &limits(), Align::SpecLimits, Shows::all(), 11, &vec![]), None);
    assert_eq!(cpkplot(&empty, Some(1), 2), None);
}

#[test]
fn box_plot_shows_quartiles_and_whiskers() {
    let b = boxplot(&sample(), &limits(), Align::SpecLimits, Shows::all()).unwrap();
    assert_eq!(b.whiskers, (10, 50));
    assert_eq!(b.quartiles, (Quantile::At(20), Quantile::At(40)));
    assert_eq!(b.median, Quantile::At(30));
    assert_eq!(b.domain, Domain { lef: Some(0), rig: Some(100), centre: None });
    assert_eq!(b.lines.len(), 5);
}

#[test]
fn histogram_has_bins_and_peak() {
    let n = Numbers::from_f64(vec![0, 1, 2, 50, 51, 100]);
    let edges: Vec<i64> = vec![9, 18, 27, 36, 45, 54, 63, 72, 81];
    let h = histogram(&n, &limits(), Align::ControlLimits, Shows::empty(), 11, &edges).unwrap();
    assert_eq!(h.bins, vec![3, 1, 1, 1, 0, 0, 0, 0, 0, 0, 0]);
    assert_eq!(h.peak, 3);
    assert_eq!(h.domain, Domain { lef: Some(20), rig: Some(45), centre: None });
    assert_eq!(h.lines, vec![]);
    let flat = Numbers::from_f64(vec![5, 5]);
    let h = histogram(&flat, &limits(), Align::ControlLimits, Shows::empty(), 11, &edges).unwrap();
    assert_eq!(h.bins, Vec::<usize>::new());
    assert_eq!(h.peak, 0);
}

#[test]
fn capability_bar_marks_failure() {
    let bar = |marker| Some(CpkPlot {
        fail_zone: Tint::Plum,
        pass_zone: Tint::PaleGreen,
        limit: 167,
        marker,
    });
    assert_eq!(cpkplot(&sample(), Some(166), 167), bar(Some((166, Tint::Fuchsia))));
    assert_eq!(cpkplot(&sample(), Some(167), 167), bar(Some((167, Tint::DarkGreen))));
    assert_eq!(cpkplot(&sample(), None, 167), bar(None));
}
