use qtablepdf::config::default_props;
use qtablepdf::data::Data;
use qtablepdf::group::{GroupBy, Groups};
use qtablepdf::qtable::Filter;

fn column(name: &str, vals: &[&str]) -> Data {
    Data {
        name: name.to_string(),
        filt: Filter::Off,
        vals: vals.iter().map(|s| s.to_string()).collect(),
    }
}

fn grouped(table: &Vec<Data>, by: Vec<GroupBy>) -> Result<Groups, String> {
    let mut props = default_props(0, i64::MAX, 0);
    props.group_by = by;
    Groups::new(table, &props)
}

#[test]
fn two_selectors_give_three_groups_in_order_of_discovery() {
    let table = vec![column("lot", &["A", "A", "B"]), column("wafer", &["1", "2", "1"]), column("x", &["7", "8", "9"])];
    let g = grouped(&table, vec![GroupBy::ColName("lot".to_string()), GroupBy::ColNumber(2)]).unwrap();
    assert_eq!(g.groups.len(), 3);
    assert_eq!(g.groups[0].group, "lot=A, wafer=1");
    assert_eq!(g.groups[1].group, "lot=A, wafer=2");
    assert_eq!(g.groups[2].group, "lot=B, wafer=1");
    assert_eq!(g.groups[0].name, " 1>");
    assert_eq!(g.groups[1].name, " 2>");
    assert_eq!(g.groups[2].name, " 3>");
    assert_eq!(g.groups[0].indices, vec![0]);
    assert_eq!(g.groups[1].indices, vec![1]);
    assert_eq!(g.groups[2].indices, vec![2]);
}

#[test]
fn groups_are_never_sorted() {
    let table = vec![column("lot", &["B", "A", "B", "C", "A"])];
    let g = grouped(&table, vec![GroupBy::ColNumber(1)]).unwrap();
    assert_eq!(g.groups.len(), 3);
    assert_eq!(g.groups[0].group, "lot=B");
    assert_eq!(g.groups[0].indices, vec![0, 2]);
    assert_eq!(g.groups[1].group, "lot=A");
    assert_eq!(g.groups[1].indices, vec![1, 4]);
    assert_eq!(g.groups[2].group, "lot=C");
    assert_eq!(g.groups[2].indices, vec![3]);
}

#[test]
fn no_selector_gives_no_group() {
    let table = vec![column("lot", &["A", "B"])];
    let g = grouped(&table, vec![]).unwrap();
    assert_eq!(g.groups.len(), 0);
    let g = grouped(&vec![], vec![]).unwrap();
    assert_eq!(g.groups.len(), 0);
}

#[test]
fn a_column_selected_twice_counts_once() {
    let table = vec![column("lot", &["A", "B"]), column("w", &["1", "1"])];
    let by = vec![
        GroupBy::ColNumber(2),
        GroupBy::ColName("w".to_string()),
        GroupBy::ColNumber(1),
        GroupBy::ColNumber(2),
    ];
    let g = grouped(&table, by).unwrap();
    assert_eq!(g.groups.len(), 2);
    assert_eq!(g.groups[0].group, "w=1, lot=A");
    assert_eq!(g.groups[1].group, "w=1, lot=B");
}

#[test]
fn a_name_selects_the_last_column_of_that_name() {
    let table = vec![column("w", &["1", "1"]), column("w", &["a", "b"])];
    let g = grouped(&table, vec![GroupBy::ColName("w".to_string())]).unwrap();
    assert_eq!(g.groups.len(), 2);
    assert_eq!(g.groups[0].group, "w=a");
}

#[test]
fn group_numbers_are_right_aligned_in_two_characters() {
    let vals: Vec<String> = (0..12).map(|i| i.to_string()).collect();
    let table = vec![Data { name: "n".to_string(), filt: Filter::Off, vals }];
    let g = grouped(&table, vec![GroupBy::ColNumber(1)]).unwrap();
    assert_eq!(g.groups.len(), 12);
    assert_eq!(g.groups[8].name, " 9>");
    assert_eq!(g.groups[9].name, "10>");
    assert_eq!(g.groups[11].name, "12>");
}

#[test]
fn a_shorter_column_leaves_the_later_keys_as_they_are() {
    let table = vec![column("a", &["1", "2", "3"]), column("b", &["x"])];
    let g = grouped(&table, vec![GroupBy::ColNumber(1), GroupBy::ColNumber(2)]).unwrap();
    assert_eq!(g.groups.len(), 3);
    assert_eq!(g.groups[0].group, "a=1, b=x");
    assert_eq!(g.groups[1].group, "a=2");
    assert_eq!(g.groups[2].group, "a=3");
}

#[test]
fn unknown_name_is_refused() {
    let table = vec![column("lot", &["A"])];
    let r = grouped(&table, vec![GroupBy::ColNumber(9), GroupBy::ColName("wafer".to_string())]);
    assert_eq!(r, Err("groupby column 'wafer' not found in datafile.".to_string()));
}

#[test]
fn number_under_one_is_refused() {
    let table = vec![column("lot", &["A"])];
    let r = grouped(&table, vec![GroupBy::ColNumber(0)]);
    assert_eq!(
        r,
        Err("group_by '0' is lower than 1,\n       allowed is from 1 to length of number of columns of the data file.".to_string())
    );
}

#[test]
fn number_over_the_columns_is_refused() {
    let table = vec![column("lot", &["A"])];
    let r = grouped(&table, vec![GroupBy::ColNumber(1), GroupBy::ColNumber(2)]);
    assert_eq!(
        r,
        Err("group_by '2' is greater than the numbers of parameters,\n       allowed is from 1 to length of number of columns of the data file.".to_string())
    );
    let r = grouped(&vec![], vec![GroupBy::ColNumber(1)]);
    assert!(r.is_err());
}
