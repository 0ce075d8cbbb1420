use qtablepdf::data::add_data;
use qtablepdf::limits::{Limits, LimitsTable};
use qtablepdf::qtable::Filter;

fn row(v: &[&str]) -> Vec<String> {
    v.iter().map(|s| s.to_string()).collect()
}

#[test]
fn columns_without_a_name_and_blank_records_are_left_out() {
    let headers = row(&["lot", "", "P1", "P2"]);
    let records = vec![
        row(&["A", "x", "1", "2"]),
        row(&["", "", "", ""]),
        row(&["B", "y", "", "4"]),
        row(&["C", "z"]),
    ];
    let mut limits = LimitsTable::new();
    let mut l = Limits::new();
    l.flt_low = Some(0);
    limits.insert("P2".to_string(), l);
    let t = add_data(&headers, &records, &limits, &Filter::IQR(15));
    assert_eq!(t.len(), 3);
    assert_eq!(t[0].name, "lot");
    assert_eq!(t[0].vals, row(&["A", "B", "C"]));
    assert_eq!(t[0].filt, Filter::IQR(15));
    assert_eq!(t[1].name, "P1");
    assert_eq!(t[1].vals, row(&["1", ""]));
    assert_eq!(t[2].name, "P2");
    assert_eq!(t[2].vals, row(&["2", "4"]));
    assert_eq!(t[2].filt, Filter::Lower(0));
}

#[test]
fn a_file_without_records_has_empty_columns() {
    let t = add_data(&row(&["a", "b"]), &vec![], &LimitsTable::new(), &Filter::Off);
    assert_eq!(t.len(), 2);
    assert!(t[0].vals.is_empty());
    assert!(add_data(&vec![], &vec![], &LimitsTable::new(), &Filter::Off).is_empty());
}
