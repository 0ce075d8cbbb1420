use qtablepdf::config::{check_infiles, file_kind, info, FileKind, Infile};

fn headers(v: &[&str]) -> Vec<String> {
    v.iter().map(|s| s.to_string()).collect()
}

fn file(path: &str, kind: FileKind) -> Infile {
    Infile { path: path.to_string(), kind }
}

#[test]
fn files_are_told_apart_by_their_headers() {
    assert_eq!(file_kind(&headers(&["use", "Par", "lsl"])), FileKind::Limits);
    assert_eq!(file_kind(&headers(&["USE", "PAR", "TGT", "OPT", "VAL"])), FileKind::Limits);
    assert_eq!(file_kind(&headers(&["USE", "OPT", "VAL", "NAM"])), FileKind::Config);
    assert_eq!(file_kind(&headers(&["use", "opt", "val", "par"])), FileKind::Config);
    assert_eq!(file_kind(&headers(&["USE", "PAR"])), FileKind::Data);
    assert_eq!(file_kind(&headers(&["PAR", "LSL", "USL"])), FileKind::Data);
    assert_eq!(file_kind(&headers(&["lot", "P1"])), FileKind::Data);
    assert_eq!(file_kind(&headers(&[])), FileKind::Data);
}

#[test]
fn one_file_of_each_kind_is_taken() {
    let files = vec![
        file("c.csv", FileKind::Config),
        file("d.csv", FileKind::Data),
        file("l.csv", FileKind::Limits),
    ];
    assert_eq!(
        check_infiles(&files),
        Ok(("d.csv".to_string(), "l.csv".to_string(), "c.csv".to_string()))
    );
    assert_eq!(
        check_infiles(&vec![file("d.csv", FileKind::Data)]),
        Ok(("d.csv".to_string(), String::new(), String::new()))
    );
}

#[test]
fn a_second_file_of_a_kind_is_refused() {
    let d = file("d.csv", FileKind::Data);
    let l = file("l.csv", FileKind::Limits);
    let c = file("c.csv", FileKind::Config);
    assert_eq!(
        check_infiles(&vec![d.clone(), file("e.csv", FileKind::Data)]),
        Err("can only read one CSV data file 'd.csv', data file 'e.csv' cannot be loaded.".to_string())
    );
    assert_eq!(
        check_infiles(&vec![l.clone(), d.clone(), file("m.csv", FileKind::Limits)]),
        Err("can only read one CSV limit file 'l.csv', limit file 'm.csv' cannot be loaded.".to_string())
    );
    assert_eq!(
        check_infiles(&vec![l.clone(), c.clone(), file("k.csv", FileKind::Config), d.clone(), d.clone()]),
        Err("can only read one CSV config file 'l.csv', config file 'k.csv' cannot be loaded.".to_string())
    );
}

#[test]
fn a_data_file_is_needed() {
    let hint = Err("HINT: at least one CSV data file must be provided.".to_string());
    assert_eq!(check_infiles(&vec![]), hint);
    assert_eq!(check_infiles(&vec![file("l.csv", FileKind::Limits)]), hint);
}

#[test]
fn hints_and_errors_are_told_apart() {
    assert_eq!(info("HINT: do this"), " HINT: do this");
    assert_eq!(info("it failed"), "ERROR: it failed");
    assert_eq!(info("HIN"), "ERROR: HIN");
    assert_eq!(info(""), "ERROR: ");
    assert_eq!(info("hint: no"), "ERROR: hint: no");
}
