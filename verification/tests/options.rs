use qtablepdf::config::{default_props, PDFTimestamp};
use qtablepdf::group::GroupBy;
use qtablepdf::limits::Threshold;
use qtablepdf::options::{option, Config, Defaults, Opt, OptionRow};
use qtablepdf::pdf::Paper;
use qtablepdf::qtable::{Align, Column, Filter, Marks, Order, Shows};

fn config() -> Config {
    let defaults = Defaults { factor: 15, cutoff: 1_000_000, cpk: 167, cpk_most: 1000 };
    Config::new("cfg.csv".to_string(), defaults, default_props(7000, 1_000_000, 167))
}

fn row(opt: &str, val: &str) -> OptionRow {
    OptionRow {
        used: true,
        record: "record".to_string(),
        opt: opt.to_string(),
        val: val.to_lowercase(),
        val_ori: val.to_string(),
        nam: String::new(),
        wid: String::new(),
        args: vec![],
        parts: val.to_lowercase().split('|').map(|s| s.trim().to_string()).collect(),
        cells: vec![],
        val_int: val.parse::<i64>().ok(),
        val_count: val.parse::<usize>().ok(),
        val_level: None,
        val_percent: None,
        nam_level: None,
        wid_width: None,
        arg: None,
    }
}

fn column(kind: &str, nam: &str, wid: Option<u32>) -> OptionRow {
    let mut r = row("column", kind);
    r.nam = nam.to_string();
    r.wid = "w".to_string();
    r.wid_width = wid;
    r
}

#[test]
fn options_are_named_in_lower_case() {
    assert_eq!(option("caption"), Opt::Caption);
    assert_eq!(option("captionwhere"), Opt::CaptionWhere);
    assert_eq!(option("cpklimit"), Opt::CpkLimit);
    assert_eq!(option("column"), Opt::Column);
    assert_eq!(option("Column"), Opt::Unknown);
    assert_eq!(option(""), Opt::Unknown);
}

#[test]
fn a_row_that_is_not_in_use_changes_nothing() {
    let mut c = config();
    let mut r = row("nonsense", "");
    r.used = false;
    assert_eq!(c.apply(&r), Ok(None));
    assert_eq!(c.props, default_props(7000, 1_000_000, 167));
    assert!(c.columns.is_empty());
}

#[test]
fn a_row_in_use_needs_an_option() {
    let mut c = config();
    assert_eq!(
        c.apply(&row("", "x")),
        Err("column OPT in row 'record'\n       in CSV configfile 'cfg.csv' is checked and cannot be empty.".to_string())
    );
    assert_eq!(
        c.apply(&row("colour", "x")),
        Err("unknown OPT 'colour' in configfile 'cfg.csv'.".to_string())
    );
}

#[test]
fn an_option_needs_its_value() {
    let mut c = config();
    assert_eq!(
        c.apply(&row("order", "")),
        Err("column VAL for OPT 'order' in CSV configfile 'cfg.csv' cannot be empty.\n              allowed VAL: \"bybadgood, bynumber\"".to_string())
    );
    assert_eq!(c.apply(&row("nanstring", "")), Ok(None));
    assert_eq!(c.apply(&row("pdffolder", "")), Ok(None));
    assert_eq!(c.props.pdffolder, ".");
    assert_eq!(c.apply(&row("longgroupnames", "")), Ok(None));
    assert!(c.props.longgroupnames);
    assert_eq!(c.apply(&row("groupby", "")), Ok(None));
}

#[test]
fn texts_are_taken() {
    let mut c = config();
    assert_eq!(c.apply(&row("caption", "My Table")), Ok(None));
    assert_eq!(c.props.caption, "my table");
    assert_eq!(c.apply(&row("nanstring", "n/a")), Ok(None));
    assert_eq!(c.props.nanstring, "n/a");
    assert_eq!(c.apply(&row("pdffolder", "Out")), Ok(None));
    assert_eq!(c.props.pdffolder, "Out");
    assert_eq!(c.apply(&row("pdffile", "Report.pdf")), Ok(None));
    assert_eq!(c.props.pdffile, "Report.pdf");
}

#[test]
fn choices_are_taken_or_refused() {
    let mut c = config();
    assert_eq!(c.apply(&row("captionwhere", "firstpage")), Ok(None));
    assert!(!c.props.captioneverypage);
    assert_eq!(c.apply(&row("captionwhere", "everypage")), Ok(None));
    assert!(c.props.captioneverypage);
    assert_eq!(c.apply(&row("paper", "letterportrait")), Ok(None));
    assert_eq!(c.props.paper, Paper::LetterPortrait);
    assert_eq!(c.apply(&row("paper", "a4portrait")), Ok(None));
    assert_eq!(c.props.paper, Paper::A4Portrait);
    assert_eq!(c.apply(&row("order", "bynumber")), Ok(None));
    assert_eq!(c.props.order, Order::ByNumber);
    assert_eq!(c.apply(&row("groupnames", "longnames")), Ok(None));
    assert!(c.props.longgroupnames);
    assert_eq!(c.apply(&row("groupnames", "numbers")), Ok(None));
    assert!(!c.props.longgroupnames);
    assert_eq!(c.apply(&row("align", "target")), Ok(None));
    assert_eq!(c.props.align, Align::Targets);
    assert_eq!(c.apply(&row("align", "fit")), Ok(None));
    assert_eq!(c.props.align, Align::FitValues);
    assert_eq!(c.apply(&row("pdftimestamp", "utc")), Ok(None));
    assert_eq!(c.props.pdftimestamp, PDFTimestamp::UTC);
    assert_eq!(c.apply(&row("pdftimestamp", "local")), Ok(None));
    assert_eq!(c.props.pdftimestamp, PDFTimestamp::Local);
    assert_eq!(c.apply(&row("pdftimestamp", "whenever")), Ok(None));
    assert_eq!(c.props.pdftimestamp, PDFTimestamp::Off);
    assert_eq!(
        c.apply(&row("paper", "a3")),
        Err("Unknown VAL 'a3' for OPT 'paper' in configfile 'cfg.csv'.\n       Allowed VAL: a4portrait, a4landscape, letterportrait, letterlandscape".to_string())
    );
    assert!(c.apply(&row("order", "random")).is_err());
    assert!(c.apply(&row("align", "left")).is_err());
    assert!(c.apply(&row("groupnames", "short")).is_err());
    assert!(c.apply(&row("captionwhere", "nowhere")).is_err());
}

#[test]
fn whole_numbers_are_taken_or_replaced() {
    let mut c = config();
    assert_eq!(c.apply(&row("fontsize", "9")), Ok(None));
    assert_eq!(c.props.fontsize, 9);
    assert_eq!(
        c.apply(&row("fontsize", "big")),
        Ok(Some("VAL 'big' for OPT 'fontsize' is invalid, using '6' instead.".to_string()))
    );
    assert_eq!(c.props.fontsize, 6);
    assert_eq!(c.apply(&row("sigdigits", "3")), Ok(None));
    assert_eq!(c.props.sig_digits, 3);
    assert_eq!(
        c.apply(&row("sigdigits", "-1")),
        Ok(Some("VAL '-1' for OPT 'sigdigits' is invalid, using '4' instead.".to_string()))
    );
    assert_eq!(c.props.sig_digits, 4);
    assert_eq!(c.apply(&row("histobins", "20")), Ok(None));
    assert_eq!(c.props.histogram_bins, 20);
    assert_eq!(
        c.apply(&row("histobins", "2")),
        Ok(Some("number of bins for histogram must be >= 3. '2' is too low, using default value '11' instead.".to_string()))
    );
    assert_eq!(c.props.histogram_bins, 11);
    c.props.histogram_bins = 5;
    assert_eq!(
        c.apply(&row("histobins", "x")),
        Ok(Some("VAL 'x' for OPT 'histobins' is invalid, using '11' instead.".to_string()))
    );
    assert_eq!(c.props.histogram_bins, 11);
}

#[test]
fn levels_and_thresholds_are_taken_capped_or_replaced() {
    let mut c = config();
    let mut r = row("cpklimit", "1.33");
    r.val_level = Some(133);
    assert_eq!(c.apply(&r), Ok(None));
    assert_eq!(c.props.cpk_limit, 133);
    r.val_level = Some(2000);
    assert_eq!(c.apply(&r), Ok(None));
    assert_eq!(c.props.cpk_limit, 1000);
    r.val_level = None;
    assert_eq!(
        c.apply(&r),
        Ok(Some("VAL '1.33' for OPT 'cpklimit' is invalid, using '1.67' instead.".to_string()))
    );
    assert_eq!(c.props.cpk_limit, 167);
    let mut r = row("floatlimit", "5");
    r.val_level = Some(5);
    assert_eq!(c.apply(&r), Ok(None));
    assert_eq!(c.props.float_limit, 5);
    r.val_level = None;
    let said = c.apply(&r).unwrap().unwrap();
    assert!(said.starts_with("VAL '5' for OPT 'floatlimit' is invalid, using '17976931348623157"));
    assert_eq!(said.len(), "VAL '5' for OPT 'floatlimit' is invalid, using '' instead.".len() + 309);
    assert_eq!(c.props.float_limit, 1_000_000);
    let mut r = row("specyieldlimit", "99.5");
    r.val_percent = Some(Threshold { num: 995, den: 10 });
    assert_eq!(c.apply(&r), Ok(None));
    assert_eq!(c.props.spec_yield_limit, Threshold { num: 995, den: 10 });
    r.val_percent = Some(Threshold { num: 1001, den: 10 });
    assert_eq!(c.apply(&r), Ok(None));
    assert_eq!(c.props.spec_yield_limit, Threshold { num: 100, den: 1 });
    let mut r = row("ctrlyieldlimit", "x");
    assert_eq!(
        c.apply(&r),
        Ok(Some("VAL 'x' for OPT 'ctrlyieldlimit' is invalid, using '100' instead.".to_string()))
    );
    assert_eq!(c.props.ctrl_yield_limit, Threshold { num: 100, den: 1 });
    r.val_percent = Some(Threshold { num: 90, den: 1 });
    assert_eq!(c.apply(&r), Ok(None));
    assert_eq!(c.props.ctrl_yield_limit, Threshold { num: 90, den: 1 });
    assert_eq!(c.props.spec_yield_limit, Threshold { num: 100, den: 1 });
}

#[test]
fn filter_takes_its_factor_from_the_name() {
    let mut c = config();
    let mut r = row("filter", "iqr");
    r.nam = "3".to_string();
    r.nam_level = Some(30);
    assert_eq!(c.apply(&r), Ok(None));
    assert_eq!(c.props.filter, Filter::IQR(30));
    r.nam = "much".to_string();
    r.nam_level = None;
    assert_eq!(
        c.apply(&r),
        Ok(Some("In outliers iqr: 'much' is not a number, using 1.5 instead".to_string()))
    );
    assert_eq!(c.props.filter, Filter::IQR(15));
    let mut r = row("filter", "zscore");
    r.nam_level = Some(25);
    assert_eq!(c.apply(&r), Ok(None));
    assert_eq!(c.props.filter, Filter::ZScore(25));
    r.nam_level = None;
    assert_eq!(
        c.apply(&r),
        Ok(Some("In outliers zscore: '' is not a number, using 2.5 instead".to_string()))
    );
    assert_eq!(c.props.filter, Filter::ZScore(15));
    assert!(c.apply(&row("filter", "median")).is_err());
}

#[test]
fn shown_lines_and_marked_stages_add_up_over_the_rows() {
    let mut c = config();
    assert_eq!(c.apply(&row("show", "spec")), Ok(None));
    assert_eq!(c.props.show, Shows { spec_limits: true, control_limits: false, targets: false });
    assert_eq!(c.apply(&row("show", "target | control")), Ok(None));
    assert_eq!(c.props.show, Shows::all());
    assert!(c.apply(&row("show", "spec|all")).is_err());
    assert_eq!(c.apply(&row("mark", "cpk|specyield")), Ok(None));
    assert_eq!(c.props.mark, Marks { spec_yield: true, control_yield: false, cpk: true });
    assert_eq!(c.apply(&row("mark", "ctrlyield")), Ok(None));
    assert_eq!(c.props.mark, Marks::all());
    assert!(c.apply(&row("mark", "yield")).is_err());
}

#[test]
fn group_by_takes_every_cell() {
    let mut c = config();
    let mut r = row("groupby", "lot");
    r.cells = vec![("lot".to_string(), None), ("2".to_string(), Some(2))];
    assert_eq!(c.apply(&r), Ok(None));
    assert_eq!(c.props.group_by, vec![GroupBy::ColName("lot".to_string()), GroupBy::ColNumber(2)]);
    r.cells = vec![("5".to_string(), Some(5))];
    assert_eq!(c.apply(&r), Ok(None));
    assert_eq!(c.props.group_by.len(), 3);
    assert_eq!(c.props.group_by[2], GroupBy::ColNumber(5));
}

#[test]
fn columns_are_taken_in_order() {
    let mut c = config();
    assert_eq!(c.apply(&column("mean", "m", Some(600))), Ok(None));
    assert_eq!(c.apply(&column("stddev", "s", Some(650))), Ok(None));
    assert_eq!(
        c.apply(&column("cpkplot", "c", None)),
        Ok(Some("WID 'w' for column   'c' is invalid, using '7' instead.".to_string()))
    );
    let mut p = column("percentile", "p90", Some(500));
    assert_eq!(c.apply(&p), Ok(None));
    assert_eq!(c.columns.len(), 3);
    p.args = vec!["0.9".to_string()];
    p.arg = Some((9, 10));
    assert_eq!(c.apply(&p), Ok(None));
    p.args = vec!["most".to_string()];
    p.arg = None;
    assert_eq!(
        c.apply(&p),
        Err("invalid ARG 'most' for column 'column' in configfile cfg.csv.".to_string())
    );
    assert!(c.apply(&column("sum", "s", Some(1))).is_err());
    assert_eq!(c.apply(&column("mean", "", Some(600))), Ok(None));
    let mut no_width = column("mean", "m", Some(600));
    no_width.wid = String::new();
    assert_eq!(c.apply(&no_width), Ok(None));
    assert_eq!(
        c.columns,
        vec![
            Column::Mean("m".to_string(), 600),
            Column::Sdev("s".to_string(), 650),
            Column::Cpkplot("c".to_string(), 700),
            Column::Percentile("p90".to_string(), 500, 9, 10),
        ]
    );
    let (props, columns) = c.finish();
    assert_eq!(columns.len(), 4);
    assert_eq!(props.fontsize, 7);
}

#[test]
fn fewer_than_three_columns_give_the_standard_ones() {
    let mut c = config();
    assert_eq!(c.apply(&column("mean", "m", Some(600))), Ok(None));
    assert_eq!(c.apply(&column("max", "x", Some(600))), Ok(None));
    let (_, columns) = c.finish();
    assert_eq!(columns.len(), 17);
    assert_eq!(columns[0], Column::Number("num".to_string(), 400));
    let (_, columns) = config().finish();
    assert_eq!(columns.len(), 17);
}
