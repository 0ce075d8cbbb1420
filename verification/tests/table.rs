use qtablepdf::pdf::sub_strings;
use qtablepdf::table::{CellContent, Op, Plot, Table};

fn texts(v: &[&str]) -> Vec<String> {
    v.iter().map(|s| s.to_string()).collect()
}

fn line(v: &[&str]) -> Vec<CellContent> {
    v.iter().map(|s| CellContent::String(s.to_string())).collect()
}

const WHITE: (u16, u16, u16) = (2550, 2550, 2550);
const DARK_GREY: (u16, u16, u16) = (1785, 1785, 1785);

#[test]
fn wrap_cuts_by_characters() {
    assert_eq!(sub_strings("abcdefg", 3), texts(&["abc", "def", "g"]));
    assert_eq!(sub_strings("abcdef", 3), texts(&["abc", "def"]));
    assert_eq!(sub_strings("ab", 3), texts(&["ab"]));
    assert_eq!(sub_strings("a b c", 2), texts(&["a ", "b ", "c"]));
    assert_eq!(sub_strings("", 3), Vec::<String>::new());
}

#[test]
fn wrap_to_no_width_is_wrap_to_one() {
    assert_eq!(sub_strings("abc", 0), texts(&["a", "b", "c"]));
    assert_eq!(sub_strings("abc", 1), texts(&["a", "b", "c"]));
}

#[test]
fn wrap_counts_characters_not_bytes() {
    assert_eq!(sub_strings("äöüß", 3), texts(&["äöü", "ß"]));
}

#[test]
fn wrapped_pieces_in_a_row_are_the_text() {
    let text = "the quick brown fox jumps over the lazy dog";
    for n in 0..50 {
        let pieces = sub_strings(text, n);
        assert_eq!(pieces.concat(), text);
        let width = if n == 0 { 1 } else { n };
        assert_eq!(pieces.len(), (text.len() + width - 1) / width);
    }
}

#[test]
fn new_table_draws_caption_and_names() {
    let (t, ops) = Table::new(7, vec![3, 10], texts(&["number", "name"]), "caption".to_string(), 4, 50, 60);
    assert_eq!(ops.len(), 2);
    assert_eq!(ops[0], Op::Caption { lines: texts(&["capt", "ion"]), at: 0 });
    assert_eq!(
        ops[1],
        Op::Row {
            cells: vec![texts(&["num", "ber"]), texts(&["name"])],
            charts: vec![None, None],
            height: 2,
            at: 2,
            fill: DARK_GREY,
            indent: false,
            header: false,
            merged: false,
        }
    );
    assert_eq!(t.pos, 4);
    assert!(!t.turned);
    assert_eq!(t.fnt, 7);
}

#[test]
fn new_table_without_caption() {
    let (t, ops) = Table::new(7, vec![10], texts(&["n"]), String::new(), 4, 50, 60);
    assert_eq!(ops.len(), 1);
    assert_eq!(t.pos, 1);
}

#[test]
fn row_is_as_high_as_its_tallest_cell() {
    let (mut t, _) = Table::new(7, vec![3, 10, 5], texts(&["a", "b", "c"]), String::new(), 4, 50, 60);
    let cells = vec![
        CellContent::String("1234567".to_string()),
        CellContent::String(String::new()),
        CellContent::Chart(Plot::Boxplot),
    ];
    let ops = t.row(&cells, WHITE, true, true);
    assert_eq!(
        ops,
        vec![Op::Row {
            cells: vec![texts(&["123", "456", "7"]), vec![], texts(&[""])],
            charts: vec![None, None, Some(Plot::Boxplot)],
            height: 3,
            at: 1,
            fill: WHITE,
            indent: true,
            header: false,
            merged: false,
        }]
    );
    assert_eq!(t.pos, 4);
}

#[test]
fn row_that_does_not_fit_starts_a_page_with_caption_and_names() {
    let (mut t, _) = Table::new(7, vec![4], texts(&["header"]), "cap".to_string(), 10, 3, 10);
    assert_eq!(t.pos, 3);
    let ops = t.row(&line(&["x"]), WHITE, false, true);
    assert_eq!(ops.len(), 5);
    assert_eq!(ops[0], Op::Rule { at: 3 });
    assert_eq!(ops[1], Op::NewPage);
    assert_eq!(ops[2], Op::Caption { lines: texts(&["cap"]), at: 0 });
    assert_eq!(
        ops[3],
        Op::Row {
            cells: vec![texts(&["head", "er"])],
            charts: vec![None],
            height: 2,
            at: 1,
            fill: DARK_GREY,
            indent: false,
            header: true,
            merged: false,
        }
    );
    assert_eq!(
        ops[4],
        Op::Row {
            cells: vec![texts(&["x"])],
            charts: vec![None],
            height: 1,
            at: 3,
            fill: WHITE,
            indent: false,
            header: false,
            merged: false,
        }
    );
    assert!(t.turned);
    assert_eq!(t.pos, 4);
}

#[test]
fn caption_on_the_first_page_only() {
    let (mut t, _) = Table::new(7, vec![4], texts(&["h"]), "cap".to_string(), 10, 2, 10);
    let ops = t.row(&line(&["x"]), WHITE, false, false);
    assert_eq!(ops.len(), 4);
    assert_eq!(ops[1], Op::NewPage);
    assert!(matches!(ops[2], Op::Row { header: true, at: 0, .. }));
    assert!(matches!(ops[3], Op::Row { header: false, at: 1, .. }));
    assert_eq!(t.pos, 2);
}

#[test]
fn twenty_rows_on_small_pages_repeat_the_names_on_every_page() {
    let names = texts(&["number", "parameter"]);
    let (mut t, first) = Table::new(7, vec![6, 5], names.clone(), String::new(), 10, 6, 6);
    assert_eq!(first.len(), 1);
    let mut pages = 0;
    let mut rows = 0;
    for i in 0..20 {
        let ops = t.row(&line(&[&i.to_string(), "p"]), WHITE, false, true);
        let mut k = 0;
        while k < ops.len() {
            match &ops[k] {
                Op::NewPage => {
                    pages += 1;
                    match &ops[k + 1] {
                        Op::Row { cells, header, at, .. } => {
                            assert!(*header);
                            assert_eq!(*at, 0);
                            assert_eq!(cells.len(), 2);
                            assert_eq!(cells[0].concat(), names[0]);
                            assert_eq!(cells[1].concat(), names[1]);
                            assert_eq!(cells[1], texts(&["param", "eter"]));
                        }
                        other => panic!("no names under the new page: {:?}", other),
                    }
                }
                Op::Row { header: false, .. } => rows += 1,
                _ => {}
            }
            k += 1;
        }
    }
    // the names take two lines: four rows fit on each page
    assert_eq!(rows, 20);
    assert_eq!(pages, 4);
    assert!(t.turned);
}

#[test]
fn first_and_further_pages_have_their_own_capacity() {
    let (mut t, _) = Table::new(7, vec![6], texts(&["n"]), String::new(), 10, 2, 4);
    assert_eq!(t.row(&line(&["a"]), WHITE, false, true).len(), 1);
    assert_eq!(t.row(&line(&["b"]), WHITE, false, true).len(), 4);
    assert_eq!(t.pos, 2);
    assert_eq!(t.row(&line(&["c"]), WHITE, false, true).len(), 1);
    assert_eq!(t.row(&line(&["d"]), WHITE, false, true).len(), 1);
    assert_eq!(t.pos, 4);
    assert_eq!(t.row(&line(&["e"]), WHITE, false, true).len(), 4);
}

#[test]
fn caption_moves_the_cursor() {
    let (mut t, _) = Table::new(7, vec![6], texts(&["n"]), "abcdef".to_string(), 4, 20, 20);
    assert_eq!(t.pos, 3);
    assert_eq!(t.caption(false), vec![]);
    assert_eq!(t.pos, 3);
    assert_eq!(t.caption(true), vec![Op::Caption { lines: texts(&["abcd", "ef"]), at: 3 }]);
    assert_eq!(t.pos, 5);
    assert_eq!(t.table_full_line(), Op::Rule { at: 5 });
}

#[test]
fn merging_widens_the_first_column() {
    let (mut t, _) = Table::new(7, vec![2, 3, 4], texts(&["a", "b", "c"]), String::new(), 4, 20, 20);
    let first = t.merge();
    assert_eq!(first, 2);
    assert_eq!(t.max, vec![5, 3, 4]);
    assert!(t.merged);
    let ops = t.row(&line(&["12345", "x", "y"]), WHITE, true, true);
    assert!(matches!(&ops[0], Op::Row { merged: true, height: 1, .. }));
    t.unmerge(first);
    assert_eq!(t.max, vec![2, 3, 4]);
    assert!(!t.merged);
}
