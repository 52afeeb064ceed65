use rimsdb_scheme_submission::model::{
    GroundState, Lasers, ReferenceEntry, SaturationCurve, SaturationCurveUnit, Submission,
    Transition, TransitionUnit,
};

fn texts(v: &[&str]) -> Vec<String> {
    v.iter().map(|s| s.to_string()).collect()
}

#[test]
fn ground_state_level_has_to_be_a_number() {
    let gs = |level: &str| GroundState { level: level.to_string(), term_symbol: String::new() };
    assert_eq!(gs("0").get_level(), Ok("0".to_string()));
    assert_eq!(gs("123.45").get_level(), Ok("123.45".to_string()));
    assert_eq!(gs("").get_level(), Err("Ground state level is empty.".to_string()));
    assert_eq!(gs("abc").get_level(), Err("Ground state level is not a number.".to_string()));
    assert_eq!(gs(" 1").get_level(), Err("Ground state level is not a number.".to_string()));
}

#[test]
fn transition_fields_are_empty_or_numbers() {
    let mut t = Transition::new_empty();
    assert_eq!(t.level, "");
    assert_eq!(t.term_symbol, "");
    assert_eq!(t.transition_strength, "");
    assert!(!t.low_lying);
    assert!(!t.forbidden);
    assert_eq!(t.get_level(), Ok(String::new()));
    assert_eq!(t.get_transition_strength(), Ok(String::new()));
    t.level = "25000.5".to_string();
    t.transition_strength = "1e6".to_string();
    assert_eq!(t.get_level(), Ok("25000.5".to_string()));
    assert_eq!(t.get_transition_strength(), Ok("1e6".to_string()));
    t.level = "25k".to_string();
    t.transition_strength = "strong".to_string();
    assert_eq!(t.get_level(), Err("Transition level is not a number.".to_string()));
    assert_eq!(
        t.get_transition_strength(),
        Err("Transition strength is not a number.".to_string())
    );
}

#[test]
fn reference_url_is_made_from_a_bare_doi() {
    let doi = ReferenceEntry::new_from_doi("10.500/123456789");
    assert_eq!(doi.id, "10.500/123456789");
    assert_eq!(doi.authors, "");
    assert_eq!(doi.year, 0);
    assert_eq!(doi.get_url(), "https://doi.org/10.500/123456789");
    let url = ReferenceEntry::new_from_url("https://example.org/paper", "Wendt et al.", 2014);
    assert_eq!(url.id, "https://example.org/paper");
    assert_eq!(url.authors, "Wendt et al.");
    assert_eq!(url.year, 2014);
    assert_eq!(url.get_url(), "https://example.org/paper");
    let only_year = ReferenceEntry::new_from_url("https://example.org/paper", "", 2014);
    assert_eq!(only_year.get_url(), "https://example.org/paper");
    let only_authors = ReferenceEntry::new_from_url("https://example.org/paper", "Wendt", 0);
    assert_eq!(only_authors.get_url(), "https://example.org/paper");
    let neither = ReferenceEntry::new_from_url("10.1/2", "", 0);
    assert_eq!(neither.get_url(), "https://doi.org/10.1/2");
}

#[test]
fn names_and_labels_are_the_known_ones() {
    assert_eq!(Lasers::TiSa.name(), "Ti:Sa");
    assert_eq!(Lasers::Dye.name(), "Dye");
    assert_eq!(Lasers::Both.name(), "Ti:Sa and Dye");
    assert_eq!(TransitionUnit::NM.label(), "nm");
    assert_eq!(TransitionUnit::CM1.label(), "cm¯¹");
    assert_eq!(SaturationCurveUnit::WCM2.label(), "W/cm²");
    assert_eq!(SaturationCurveUnit::W.label(), "W");
}

#[test]
fn curve_is_made_from_matching_data() {
    let c = SaturationCurve::new_from_parts(
        "532 nm",
        "beam 2 mm",
        &SaturationCurveUnit::W,
        false,
        "1,2,3",
        "",
        "4,5,6",
        "",
    )
    .unwrap();
    assert_eq!(c.title, "532 nm");
    assert_eq!(c.notes, "beam 2 mm");
    assert_eq!(c.units, SaturationCurveUnit::W);
    assert!(!c.fit);
    assert_eq!(c.xdat, texts(&["1", "2", "3"]));
    assert_eq!(c.ydat, texts(&["4", "5", "6"]));
    assert_eq!(c.xdat.len(), 3);
    assert_eq!(c.ydat.len(), 3);
    assert_eq!(c.xdat_unc, None);
    assert_eq!(c.ydat_unc, None);
    let numbers: Vec<f64> = c.xdat.iter().map(|t| t.parse().unwrap()).collect();
    assert_eq!(numbers, vec![1.0, 2.0, 3.0]);
}

#[test]
fn curve_with_uncertainties_keeps_them() {
    let c = SaturationCurve::new_from_parts(
        "t",
        "",
        &SaturationCurveUnit::WCM2,
        true,
        "1,2,3",
        "0.1 0.2 0.3",
        "4,5,6",
        "0.4\t0.5\t0.6",
    )
    .unwrap();
    assert_eq!(c.xdat_unc, Some(texts(&["0.1", "0.2", "0.3"])));
    assert_eq!(c.ydat_unc, Some(texts(&["0.4", "0.5", "0.6"])));
    assert_eq!(c.get_xdat(), "1, 2, 3");
    assert_eq!(c.get_ydat(), "4, 5, 6");
    assert_eq!(c.get_xdat_unc(), "0.1, 0.2, 0.3");
    assert_eq!(c.get_ydat_unc(), "0.4, 0.5, 0.6");
}

#[test]
fn curve_without_uncertainties_shows_empty_fields() {
    let c = SaturationCurve::new_from_parts(
        "t",
        "",
        &SaturationCurveUnit::WCM2,
        true,
        "1",
        "",
        "4",
        "",
    )
    .unwrap();
    assert_eq!(c.get_xdat(), "1");
    assert_eq!(c.get_ydat(), "4");
    assert_eq!(c.get_xdat_unc(), "");
    assert_eq!(c.get_ydat_unc(), "");
}

fn parts(x: &str, xunc: &str, y: &str, yunc: &str) -> Result<SaturationCurve, String> {
    SaturationCurve::new_from_parts("t", "n", &SaturationCurveUnit::WCM2, true, x, xunc, y, yunc)
}

#[test]
fn curve_needs_as_many_y_as_x() {
    assert_eq!(parts("1,2", "", "4,5,6", ""), Err("X and Y data lengths do not match.".to_string()));
    assert_eq!(parts("1,2,3", "", "", ""), Err("X and Y data lengths do not match.".to_string()));
}

#[test]
fn curve_needs_x_data() {
    assert_eq!(parts("", "", "4,5,6", ""), Err("Please enter some data.".to_string()));
    assert_eq!(parts("", "", "", ""), Err("Please enter some data.".to_string()));
    assert_eq!(parts("", "x", "y", "z"), Err("Please enter some data.".to_string()));
}

#[test]
fn curve_needs_as_many_uncertainties_as_values() {
    assert_eq!(
        parts("1,2,3", "0.1,0.2", "4,5,6", ""),
        Err("Uncertainty x data length does not match the x data length.".to_string())
    );
    assert_eq!(
        parts("1,2,3", "", "4,5,6", "0.1,0.2,0.3,0.4"),
        Err("Uncertainty y data length does not match the y data length.".to_string())
    );
    assert_eq!(
        parts("1,2,3", " ", "4,5,6", ""),
        Err("Uncertainty x data length does not match the x data length.".to_string())
    );
}

#[test]
fn curve_needs_numbers() {
    assert_eq!(parts("1,a", "", "4,5", ""), Err("None-numeric value found in x data.".to_string()));
    assert_eq!(parts("1,2", "", "4,b", ""), Err("None-numeric value found in y data.".to_string()));
    assert_eq!(
        parts("1,2", "c", "4,5", ""),
        Err("None-numeric value found in x uncertainty data.".to_string())
    );
    assert_eq!(
        parts("1,2", "", "4,5", "d"),
        Err("None-numeric value found in y uncertainty data.".to_string())
    );
    // The first thing wrong is reported.
    assert_eq!(parts("1,a", "c", "4,b", "d"), Err("None-numeric value found in x data.".to_string()));
    assert_eq!(parts("1", "c", "4,5", "d"), Err("X and Y data lengths do not match.".to_string()));
}

#[test]
fn curve_of_blank_data_is_empty() {
    let c = parts(" ", "", "", "").unwrap();
    assert!(c.xdat.is_empty());
    assert!(c.ydat.is_empty());
    assert_eq!(c.get_xdat(), "");
}

#[test]
fn empty_submission_is_the_form_as_opened() {
    let m = Submission::default();
    assert_eq!(m.notes, "");
    assert!(m.references.is_empty());
    assert!(m.saturation_curves.is_empty());
    assert_eq!(m.scheme_element, rimsdb_scheme_submission::elements::Elements::H);
    assert_eq!(m.scheme_gs.level, "0");
    assert_eq!(m.scheme_gs.term_symbol, "");
    assert_eq!(m.scheme_ip_term_symbol, "");
    assert_eq!(m.scheme_lasers, Lasers::TiSa);
    assert_eq!(m.scheme_transitions.len(), 7);
    for t in &m.scheme_transitions {
        assert_eq!(*t, Transition::new_empty());
    }
    assert!(!m.scheme_last_step_to_ip);
    assert_eq!(m.scheme_unit, TransitionUnit::CM1);
    assert_eq!(m.submitted_by, "");
}

#[test]
fn copies_are_equal() {
    let c = parts("1,2", "3,4", "5,6", "").unwrap();
    assert_eq!(c.copy(), c);
    let r = ReferenceEntry::new_from_url("u", "a", 1999);
    assert_eq!(r.copy(), r);
}

#[test]
fn what_is_shown_for_a_curve_builds_it_again() {
    let texts = |v: &[&str]| v.iter().map(|s| s.to_string()).collect::<Vec<String>>();
    let c = SaturationCurve {
        title: "t".to_string(),
        notes: "n".to_string(),
        units: SaturationCurveUnit::W,
        fit: false,
        xdat: texts(&["1e-5", "2.5", "1e+3"]),
        xdat_unc: Some(texts(&["1e-7", "0.1", "5e-1"])),
        ydat: texts(&["1", "2", "3e-2"]),
        ydat_unc: None,
    };
    assert_eq!(c.get_xdat(), "0.00001, 2.5, 1e+3");
    assert_eq!(c.get_xdat_unc(), "0.0000001, 0.1, 0.5");
    assert_eq!(c.get_ydat(), "1, 2, 0.03");
    assert_eq!(c.get_ydat_unc(), "");
    let again = SaturationCurve::new_from_parts(
        &c.title,
        &c.notes,
        &c.units,
        c.fit,
        &c.get_xdat(),
        &c.get_xdat_unc(),
        &c.get_ydat(),
        &c.get_ydat_unc(),
    )
    .unwrap();
    assert_eq!(again.title, c.title);
    assert_eq!(again.notes, c.notes);
    assert_eq!(again.units, c.units);
    assert_eq!(again.fit, c.fit);
    assert_eq!(again.xdat, texts(&["0.00001", "2.5", "1e+3"]));
    assert_eq!(again.xdat_unc, Some(texts(&["0.0000001", "0.1", "0.5"])));
    assert_eq!(again.ydat, texts(&["1", "2", "0.03"]));
    assert_eq!(again.ydat_unc, None);
    let floats = |v: &Vec<String>| v.iter().map(|t| t.parse::<f64>().unwrap()).collect::<Vec<f64>>();
    assert_eq!(floats(&again.xdat), floats(&c.xdat));
    assert_eq!(floats(&again.ydat), floats(&c.ydat));
    // Shown once more, nothing changes.
    assert_eq!(again.get_xdat(), c.get_xdat());
}
