use qtablepdf::pdf::{make_path, path_from, tint, Paper, Tint};

#[test]
fn colours_are_fixed() {
    assert_eq!(tint(&Tint::Black), (0, 0, 0));
    assert_eq!(tint(&Tint::Blue), (0, 0, 2550));
    assert_eq!(tint(&Tint::LightBlue), (1200, 1900, 2550));
    assert_eq!(tint(&Tint::PaleGreen), (1520, 2510, 1520));
    assert_eq!(tint(&Tint::White), (2550, 2550, 2550));
    assert_eq!(tint(&Tint::Grey), (2295, 2295, 2295));
    assert_eq!(tint(&Tint::DarkGrey), (1785, 1785, 1785));
    assert_eq!(tint(&Tint::Carmine), (1500, 0, 240));
    assert_eq!(tint(&Tint::Red), (2550, 0, 0));
    assert_eq!(tint(&Tint::YellowOrange), (2550, 2040, 0));
    assert_eq!(tint(&Tint::Green), (0, 2550, 0));
    assert_eq!(tint(&Tint::DarkGreen), (0, 1500, 0));
    assert_eq!(tint(&Tint::Gold), (2550, 2150, 0));
    assert_eq!(tint(&Tint::Plum), (2210, 1600, 2210));
    assert_eq!(tint(&Tint::Fuchsia), (2550, 0, 2550));
}

#[test]
fn paper_sizes() {
    assert_eq!(Paper::A4Portrait.size(), (210000, 297000));
    assert_eq!(Paper::A4Landscape.size(), (297000, 210000));
    assert_eq!(Paper::LetterPortrait.size(), (215900, 279400));
    assert_eq!(Paper::LetterLandscape.size(), (279400, 215900));
}

#[test]
fn path_loses_the_extension_and_gets_time_and_pdf() {
    let sep = std::path::MAIN_SEPARATOR;
    assert_eq!(
        make_path("out", "data.csv", "_20200101_120000"),
        Ok(format!("out{}data_20200101_120000.pdf", sep))
    );
    assert_eq!(make_path("out", "report.PDF", ""), Ok(format!("out{}report.pdf", sep)));
    assert_eq!(make_path("out", "report.pd", ""), Ok(format!("out{}report.pdf", sep)));
}

#[test]
fn path_without_folder_is_in_the_current_one() {
    let sep = std::path::MAIN_SEPARATOR;
    assert_eq!(make_path("", "data.csv", ""), Ok(format!(".{}data.pdf", sep)));
}

#[test]
fn name_without_extension_stays_as_it_is() {
    let sep = std::path::MAIN_SEPARATOR;
    assert_eq!(make_path("out", "report", "_t"), Ok(format!("out{}report_t.pdf", sep)));
}

#[test]
fn the_first_match_of_the_extension_is_taken_out() {
    let sep = std::path::MAIN_SEPARATOR;
    // the extension `cs`, with or without its `s`, first stands behind `a`
    assert_eq!(make_path("out", "a.csv.cs", ""), Ok(format!("out{}av.cs.pdf", sep)));
}

#[test]
fn empty_file_name_is_refused() {
    assert_eq!(make_path("out", "", "_t"), Err("PDF filename cannot be empty.".to_string()));
}

#[test]
fn extension_that_is_no_pattern_is_refused() {
    assert_eq!(
        make_path("out", "a.(", ""),
        Err("PDF filename 'a.(' has an extension that cannot be matched.".to_string())
    );
}

#[test]
fn path_from_a_stem() {
    let sep = std::path::MAIN_SEPARATOR;
    assert_eq!(path_from("", "stem", "_t"), format!(".{}stem_t.pdf", sep));
    assert_eq!(path_from("dir", "stem", ""), format!("dir{}stem.pdf", sep));
}
