use qtablepdf::config::default_props;
use qtablepdf::group::{Group, GroupBy, Groups};
use qtablepdf::data::Data;
use qtablepdf::limits::{Limits, YieldOk};
use qtablepdf::numbers::{Capability, Figure, Numbers, Offset, Yield};
use qtablepdf::qtable::{
    arrange, default_columns, emission_order, figures, number_width, write_figures, Align, Column, ColumnsExt, Filter,
    Kind, Mark, Marks, Order, Par, QTable, Show, Shows,
};
use qtablepdf::table::{CellContent, Op, Plot};

fn text(s: &str) -> CellContent {
    CellContent::String(s.to_string())
}

fn par(data: Vec<i64>, limits: Limits, limitsok: YieldOk) -> Par {
    Par {
        number: 4,
        group: String::new(),
        name: "P5".to_string(),
        limitsok,
        numbers: Numbers::from_f64(data),
        mean: Some(3),
        limits,
    }
}

fn all_limits() -> Limits {
    let mut l = Limits::new();
    l.lsl = Some(0);
    l.tgt = Some(3);
    l.usl = Some(6);
    l.lcl = Some(1);
    l.ucl = Some(5);
    l
}

fn value(c: Column, p: &Par) -> CellContent {
    let mut props = default_props(0, i64::MAX, 0);
    props.nanstring = "n/a".to_string();
    c.column_value(&p.number, &p.group, &p.name, &p.numbers, p.mean, &p.limits, &props, 3)
}

fn every_kind() -> Vec<Column> {
    let n = |s: &str| s.to_string();
    vec![
        Column::Number(n("a"), 1),
        Column::Parameter(n("a"), 1),
        Column::Count(n("a"), 1),
        Column::Mean(n("a"), 1),
        Column::Median(n("a"), 1),
        Column::Variance(n("a"), 1),
        Column::Sdev(n("a"), 1),
        Column::Min(n("a"), 1),
        Column::Max(n("a"), 1),
        Column::Range(n("a"), 1),
        Column::SpecYield(n("a"), 1),
        Column::CtrlYield(n("a"), 1),
        Column::K(n("a"), 1),
        Column::Cpk(n("a"), 1),
        Column::Cp(n("a"), 1),
        Column::Percentile(n("a"), 1, 9, 10),
        Column::P25(n("a"), 1),
        Column::P75(n("a"), 1),
        Column::LSL(n("a"), 1),
        Column::TGT(n("a"), 1),
        Column::USL(n("a"), 1),
        Column::LCL(n("a"), 1),
        Column::UCL(n("a"), 1),
        Column::Boxplot(n("a"), 1),
        Column::Histogram(n("a"), 1),
        Column::Cpkplot(n("a"), 1),
    ]
}

#[test]
fn default_columns_are_the_seventeen_standard_ones() {
    let c = default_columns();
    assert_eq!(c.len(), 17);
    assert_eq!(c[0], Column::Number("num".to_string(), 400));
    assert_eq!(c[1], Column::Parameter("parameter".to_string(), 1000));
    assert_eq!(c[2], Column::LSL("lsl".to_string(), 600));
    assert_eq!(c[7], Column::Count("cnt".to_string(), 300));
    assert_eq!(c[11], Column::CtrlYield("ctrl yld".to_string(), 300));
    assert_eq!(c[12], Column::SpecYield("spec yld".to_string(), 300));
    assert_eq!(c[14], Column::Histogram("histogram".to_string(), 1000));
    assert_eq!(c[16], Column::Cpkplot("cpkchart".to_string(), 600));
    let widths: u32 = c.iter().map(|x| x.column_width()).sum();
    assert_eq!(widths, 10000);
}

#[test]
fn column_name_and_width() {
    let c = Column::Percentile("p90".to_string(), 750, 9, 10);
    assert_eq!(c.column_name(), "p90");
    assert_eq!(c.column_width(), 750);
    assert_eq!(c.column_name_width(), ("p90", 750));
    assert_eq!(c.column_kind(), Kind::Percentile(9, 10));
    assert_eq!(c.copy(), c);
    assert!(c.is_alike(&c.copy()));
    assert!(!c.is_alike(&Column::Percentile("p90".to_string(), 750, 90, 100)));
    assert!(!c.is_alike(&Column::P75("p90".to_string(), 750)));
}

#[test]
fn number_and_name_always_stand_first() {
    let input = vec![
        Column::Mean("m".to_string(), 600),
        Column::Parameter("name".to_string(), 2000),
        Column::Mean("m".to_string(), 600),
        Column::Mean("m".to_string(), 700),
        Column::Number("#".to_string(), 300),
        Column::Number("no".to_string(), 350),
    ];
    let c = arrange(&input).unwrap();
    assert_eq!(
        c,
        vec![
            Column::Number("no".to_string(), 350),
            Column::Parameter("name".to_string(), 2000),
            Column::Mean("m".to_string(), 600),
            Column::Mean("m".to_string(), 700),
        ]
    );
}

#[test]
fn missing_number_and_name_are_put_in() {
    let c = arrange(&vec![Column::Max("max".to_string(), 600)]).unwrap();
    assert_eq!(
        c,
        vec![
            Column::Number("num".to_string(), 500),
            Column::Parameter("parameter".to_string(), 1000),
            Column::Max("max".to_string(), 600),
        ]
    );
}

#[test]
fn a_table_without_columns_is_refused() {
    assert_eq!(arrange(&vec![]), Err("no columns defined for Qtable::new(...).".to_string()));
}

#[test]
fn delete_and_replace_refuse_a_place_beyond_the_last() {
    let mut c = default_columns();
    assert_eq!(c.delete(17), Err("canot delete column '17', because it is > 16.".to_string()));
    assert_eq!(c.len(), 17);
    assert_eq!(c.delete(0), Ok(()));
    assert_eq!(c.len(), 16);
    assert_eq!(c[0], Column::Parameter("parameter".to_string(), 1000));
    let mean = Column::Mean("m".to_string(), 1);
    assert_eq!(
        c.replace(16, mean.clone()),
        Err("canot replace column '16', because it is > 15.".to_string())
    );
    assert_eq!(c.replace(15, mean.clone()), Ok(()));
    assert_eq!(c[15], mean);
    assert_eq!(c.len(), 16);
}

#[test]
fn every_column_has_its_value() {
    let p = par(vec![1, 2, 3, 4, 5], all_limits(), YieldOk::Yes);
    let cells: Vec<CellContent> = every_kind().into_iter().map(|c| value(c, &p)).collect();
    let want = vec![
        text("005"),
        text("P5"),
        CellContent::Number(Figure::Count(5)),
        CellContent::Number(Figure::Mean),
        CellContent::Number(Figure::Level(3)),
        CellContent::Number(Figure::Variance),
        CellContent::Number(Figure::Sdev),
        CellContent::Number(Figure::Level(1)),
        CellContent::Number(Figure::Level(5)),
        CellContent::Number(Figure::Range(1, 5)),
        CellContent::Number(Figure::Yield(Yield { total: 5, below: 0, above: 0 })),
        CellContent::Number(Figure::Yield(Yield { total: 5, below: 0, above: 0 })),
        CellContent::Number(Figure::K(Offset::Below { tgt: 3, lsl: 0 })),
        CellContent::Number(Figure::Cpk(Capability::Nearer(0, 6))),
        CellContent::Number(Figure::Cp(Capability::Width(0, 6))),
        CellContent::Number(Figure::Level(5)),
        CellContent::Number(Figure::Level(2)),
        CellContent::Number(Figure::Level(4)),
        CellContent::Number(Figure::Level(0)),
        CellContent::Number(Figure::Level(3)),
        CellContent::Number(Figure::Level(6)),
        CellContent::Number(Figure::Level(1)),
        CellContent::Number(Figure::Level(5)),
        CellContent::Chart(Plot::Boxplot),
        CellContent::Chart(Plot::Histogram),
        CellContent::Chart(Plot::Cpkplot),
    ];
    assert_eq!(cells, want);
}

#[test]
fn without_limits_every_limit_column_is_the_placeholder() {
    let p = par(vec![1, 2, 3, 4, 5], Limits::new(), YieldOk::NoLimits);
    let cells: Vec<CellContent> = every_kind().into_iter().map(|c| value(c, &p)).collect();
    for i in [10, 11, 12, 13, 14, 18, 19, 20, 21, 22] {
        assert_eq!(cells[i], text("n/a"), "column {}", i);
    }
    assert_eq!(cells[2], CellContent::Number(Figure::Count(5)));
}

#[test]
fn an_empty_sample_has_placeholders_for_its_figures() {
    let mut p = par(vec![], all_limits(), YieldOk::NoLimits);
    p.mean = None;
    let cells: Vec<CellContent> = every_kind().into_iter().map(|c| value(c, &p)).collect();
    for i in 2..=17 {
        if i == 9 {
            assert_eq!(cells[i], text("n/a...n/a"));
        } else {
            assert_eq!(cells[i], text("n/a"), "column {}", i);
        }
    }
    assert_eq!(cells[18], CellContent::Number(Figure::Level(0)));
}

#[test]
fn small_samples_have_no_spread() {
    let p = par(vec![7], all_limits(), YieldOk::Yes);
    assert_eq!(value(Column::Variance("v".to_string(), 1), &p), text("n/a"));
    assert_eq!(value(Column::Sdev("v".to_string(), 1), &p), text("n/a"));
    assert_eq!(value(Column::Cpk("v".to_string(), 1), &p), text("n/a"));
    assert_eq!(value(Column::Cp("v".to_string(), 1), &p), text("n/a"));
    assert_eq!(value(Column::Median("v".to_string(), 1), &p), CellContent::Number(Figure::Level(7)));
    let p = par(vec![7, 9], all_limits(), YieldOk::Yes);
    assert_eq!(value(Column::Median("v".to_string(), 1), &p), CellContent::Number(Figure::Mean));
    assert_eq!(value(Column::Variance("v".to_string(), 1), &p), CellContent::Number(Figure::Variance));
}

#[test]
fn the_row_of_a_group_shows_the_name_of_the_group() {
    let mut p = par(vec![1], all_limits(), YieldOk::Yes);
    p.group = " 1> lot=A".to_string();
    assert_eq!(value(Column::Number("n".to_string(), 1), &p), text(" 1> lot=A"));
    p.group = String::new();
    p.number = 122;
    assert_eq!(value(Column::Number("n".to_string(), 1), &p), text("123"));
    p.number = 1233;
    assert_eq!(value(Column::Number("n".to_string(), 1), &p), text("1234"));
}

#[test]
fn rows_are_listed_failing_first() {
    let v = vec![
        YieldOk::Yes,
        YieldOk::NoLimits,
        YieldOk::CpkNot,
        YieldOk::SpecYieldNot,
        YieldOk::Yes,
        YieldOk::CtrlYieldNot,
        YieldOk::SpecYieldNot,
        YieldOk::NoLimits,
    ];
    assert_eq!(emission_order(&v, Order::ByBadGood, true), vec![3, 6, 5, 2, 0, 4, 1, 7]);
    assert_eq!(emission_order(&v, Order::ByBadGood, false), vec![0, 1, 2, 3, 4, 5, 6, 7]);
    assert_eq!(emission_order(&v, Order::ByNumber, true), vec![0, 1, 2, 3, 4, 5, 6, 7]);
    assert_eq!(emission_order(&vec![], Order::ByBadGood, true), Vec::<usize>::new());
}

#[test]
fn number_width_counts_digits() {
    assert_eq!(number_width(0), 1);
    assert_eq!(number_width(9), 1);
    assert_eq!(number_width(10), 2);
    assert_eq!(number_width(999), 3);
    assert_eq!(number_width(1000), 4);
    assert_eq!(number_width(usize::MAX), usize::MAX.to_string().len());
}

fn two_groups() -> Groups {
    Groups {
        groups: vec![
            Group { name: " 1>".to_string(), group: "lot=A".to_string(), indices: vec![0, 2] },
            Group { name: " 2>".to_string(), group: "lot=B".to_string(), indices: vec![1, 7] },
        ],
    }
}

#[test]
fn caption_lists_the_groups() {
    assert_eq!(QTable::caption_of("title", &two_groups()), "title:  1> lot=A |  2> lot=B |");
    assert_eq!(QTable::caption_of("title", &Groups { groups: vec![] }), "title");
}

#[test]
fn group_names_and_values() {
    let g = two_groups();
    assert_eq!(QTable::group_name(&g.groups[1], true), " 2> lot=B");
    assert_eq!(QTable::group_name(&g.groups[1], false), " 2>");
    let data: Vec<String> = ["a", "b", "c"].iter().map(|s| s.to_string()).collect();
    assert_eq!(QTable::group_values(&data, &g.groups[0].indices), vec!["a".to_string(), "c".to_string()]);
    assert_eq!(QTable::group_values(&data, &g.groups[1].indices), vec!["b".to_string()]);
}

#[test]
fn colours_follow_the_verdict() {
    assert_eq!(QTable::color_by_limits(&YieldOk::Yes), (0, 2550, 0));
    assert_eq!(QTable::color_by_limits(&YieldOk::SpecYieldNot), (2550, 0, 0));
    assert_eq!(QTable::color_by_limits(&YieldOk::CtrlYieldNot), (2550, 2040, 0));
    assert_eq!(QTable::color_by_limits(&YieldOk::CpkNot), (2550, 0, 2550));
    assert_eq!(QTable::color_by_limits(&YieldOk::NoLimits), (2550, 2550, 2550));
}

#[test]
fn dimming_takes_a_tenth_off_or_adds_a_half() {
    assert_eq!(QTable::dimm_color(&(0, 2550, 0)), (1275, 2295, 1275));
    assert_eq!(QTable::dimm_color(&(2550, 2040, 0)), (2295, 3315, 1275));
    assert_eq!(QTable::dimm_color(&(65000, 0, 0)), (65535, 1275, 1275));
}

#[test]
fn the_row_of_a_parameter() {
    let props = default_props(0, i64::MAX, 0);
    let columns = arrange(&vec![Column::Max("max".to_string(), 600)]).unwrap();
    let p = par(vec![1, 2, 3], all_limits(), YieldOk::CtrlYieldNot);
    let (line, fill) = QTable::qtable_line(&p, &columns, &props, 2);
    assert_eq!(line, vec![text("05"), text("P5"), CellContent::Number(Figure::Level(3))]);
    assert_eq!(fill, (2550, 2040, 0));
    let empty = par(vec![], all_limits(), YieldOk::CtrlYieldNot);
    assert_eq!(QTable::qtable_line(&empty, &columns, &props, 2).1, (2550, 2550, 2550));
}

fn table_with(groups: &Groups, long: bool) -> (QTable, Vec<Column>, qtablepdf::config::QTableProps) {
    let mut props = default_props(0, i64::MAX, 0);
    props.caption = "t".to_string();
    props.longgroupnames = long;
    let columns = arrange(&vec![Column::Parameter("name".to_string(), 600)]).unwrap();
    let (q, ops) = QTable::new(&columns, &props, groups, vec![3, 4], 80, 40, 40);
    assert!(ops.len() >= 1);
    (q, columns, props)
}

#[test]
fn a_new_table_has_caption_and_names() {
    let g = two_groups();
    let mut props = default_props(0, i64::MAX, 0);
    props.caption = "t".to_string();
    let columns = arrange(&vec![Column::Parameter("name".to_string(), 600)]).unwrap();
    let (q, ops) = QTable::new(&columns, &props, &g, vec![3, 4], 80, 40, 40);
    assert_eq!(ops.len(), 2);
    assert_eq!(ops[0], Op::Caption { lines: vec!["t:  1> lot=A |  2> lot=B |".to_string()], at: 0 });
    assert!(matches!(&ops[1], Op::Row { at: 1, height: 1, header: false, .. }));
    assert_eq!(q.groups, 2);
    assert_eq!(q.table.pos, 2);
    assert_eq!(q.table.hea, vec!["num".to_string(), "name".to_string()]);
    assert!(q.captioneverypage);
}

#[test]
fn rows_of_groups_are_indented_dimmed_and_merged() {
    let g = two_groups();
    let (mut q, columns, props) = table_with(&g, true);
    let p = par(vec![1, 2, 3], all_limits(), YieldOk::Yes);
    let (line, fill) = QTable::qtable_line(&p, &columns, &props, 1);
    let ops = q.par_line(&line, fill);
    assert_eq!(ops.len(), 3);
    assert_eq!(ops[0], Op::Outline { tint: qtablepdf::pdf::Tint::Blue });
    assert_eq!(ops[1], Op::Rule { at: 2 });
    assert!(matches!(&ops[2], Op::Row { indent: false, merged: false, fill: (0, 2550, 0), .. }));
    let mut first = par(vec![1, 3], all_limits(), YieldOk::Yes);
    first.group = QTable::group_name(&g.groups[0], true);
    let mut second = par(vec![2], all_limits(), YieldOk::SpecYieldNot);
    second.group = QTable::group_name(&g.groups[1], true);
    let (line1, fill1) = QTable::qtable_line(&first, &columns, &props, 0);
    let (line2, fill2) = QTable::qtable_line(&second, &columns, &props, 0);
    let ops = q.group_lines(&vec![line1, line2], &vec![fill1, fill2]);
    assert_eq!(ops.len(), 2);
    assert_eq!(
        ops[0],
        Op::Row {
            cells: vec![vec![" 1> lot".to_string(), "=A".to_string()], vec!["P5".to_string()]],
            charts: vec![None, None],
            height: 2,
            at: 3,
            fill: (1275, 2295, 1275),
            indent: true,
            header: false,
            merged: true,
        }
    );
    assert!(matches!(&ops[1], Op::Row { indent: true, merged: true, at: 5, fill: (2295, 1275, 1275), .. }));
    assert_eq!(q.table.max, vec![3, 4]);
    assert!(!q.table.merged);
    assert_eq!(q.finish(), Op::Rule { at: 7 });
}

#[test]
fn short_group_names_leave_the_columns_apart() {
    let g = two_groups();
    let (mut q, columns, props) = table_with(&g, false);
    let mut first = par(vec![1, 3], all_limits(), YieldOk::Yes);
    first.group = QTable::group_name(&g.groups[0], false);
    let (line, fill) = QTable::qtable_line(&first, &columns, &props, 0);
    let ops = q.group_lines(&vec![line], &vec![fill]);
    assert_eq!(ops.len(), 1);
    assert!(matches!(&ops[0], Op::Row { merged: false, indent: true, height: 1, .. }));
}

#[test]
fn without_groups_there_is_no_ruler_and_no_group_row() {
    let g = Groups { groups: vec![] };
    let (mut q, columns, props) = table_with(&g, true);
    assert_eq!(q.group_ruler(), vec![]);
    let p = par(vec![1, 2, 3], all_limits(), YieldOk::Yes);
    let (line, fill) = QTable::qtable_line(&p, &columns, &props, 1);
    assert_eq!(q.group_lines(&vec![line.clone()], &vec![fill]), vec![]);
    assert_eq!(q.par_line(&line, fill).len(), 1);
}

#[test]
fn flag_sets() {
    let mut s = Shows::empty();
    assert!(s.is_empty());
    assert!(!s.contains(Show::Targets));
    s.insert(Show::Targets);
    assert!(s.contains(Show::Targets));
    assert!(!s.contains(Show::SpecLimits));
    assert!(!s.is_empty());
    assert!(Shows::all().contains(Show::ControlLimits));
    let mut m = Marks::empty();
    assert!(m.is_empty());
    m.insert(Mark::Cpk);
    assert!(m.contains(Mark::Cpk));
    assert!(!m.contains(Mark::SpecYield));
    assert!(Marks::all().contains(Mark::ControlYield));
    assert_eq!(Filter::Off, Filter::Off);
    assert_ne!(Align::Targets, Align::FitValues);
    let _ = GroupBy::ColNumber(1);
    let _ = Data { name: String::new(), filt: Filter::Off, vals: vec![] };
}

#[test]
fn default_options() {
    let p = default_props(7000, 99, 167);
    assert_eq!(p.caption, "");
    assert!(p.captioneverypage);
    assert_eq!(p.fontsize, 7);
    assert_eq!(p.margin, 7000);
    assert_eq!(p.float_limit, 99);
    assert_eq!(p.cpk_limit, 167);
    assert_eq!(p.sig_digits, 4);
    assert_eq!(p.histogram_bins, 11);
    assert_eq!(p.order, Order::ByBadGood);
    assert_eq!(p.align, Align::SpecLimits);
    assert_eq!(p.show, Shows::all());
    assert_eq!(p.mark, Marks::all());
    assert_eq!(p.filter, Filter::Off);
    assert_eq!(p.spec_yield_limit.num, 100);
    assert_eq!(p.ctrl_yield_limit.den, 1);
    assert!(p.group_by.is_empty());
    assert!(!p.longgroupnames);
    assert_eq!(p.pdftimestamp, qtablepdf::config::PDFTimestamp::Off);
    assert_eq!(p.paper, qtablepdf::pdf::Paper::A4Landscape);
}

#[test]
fn figures_are_written_into_their_cells() {
    let line = vec![
        text("01"),
        CellContent::Number(Figure::Mean),
        CellContent::Chart(Plot::Boxplot),
        CellContent::Number(Figure::Level(7)),
        CellContent::Number(Figure::Count(3)),
    ];
    assert_eq!(figures(&line), vec![Figure::Mean, Figure::Level(7), Figure::Count(3)]);
    let texts = vec!["2.5".to_string(), "7.000".to_string()];
    assert_eq!(
        write_figures(line, &texts),
        vec![
            text("01"),
            text("2.5"),
            CellContent::Chart(Plot::Boxplot),
            text("7.000"),
            CellContent::Number(Figure::Count(3)),
        ]
    );
    assert_eq!(figures(&vec![]), vec![]);
    assert_eq!(write_figures(vec![text("a")], &vec![]), vec![text("a")]);
}
