use rimsdb_scheme_submission::elements::Elements;
use rimsdb_scheme_submission::form::{put_curve, put_reference, Form};
use rimsdb_scheme_submission::model::{
    ReferenceEntry, SaturationCurve, SaturationCurveUnit, Submission,
};

fn curve(title: &str, x: &str, y: &str) -> SaturationCurve {
    SaturationCurve::new_from_parts(title, "", &SaturationCurveUnit::WCM2, true, x, "", y, "")
        .unwrap()
}

fn enter_curve(form: &mut Form, title: &str, x: &str, y: &str) {
    form.sat_tmp_title = title.to_string();
    form.sat_tmp_xdat = x.to_string();
    form.sat_tmp_ydat = y.to_string();
    form.add_or_update_saturation_curve();
}

fn enter_reference(form: &mut Form, id: &str, authors: &str, year: &str) {
    form.reference_id = id.to_string();
    form.reference_authors = authors.to_string();
    form.reference_year = year.to_string();
    form.add_or_update_reference();
}

fn titles(form: &Form) -> Vec<&str> {
    form.submission.saturation_curves.iter().map(|c| c.title.as_str()).collect()
}

fn ids(form: &Form) -> Vec<&str> {
    form.submission.references.iter().map(|r| r.id.as_str()).collect()
}

#[test]
fn new_form_is_empty() {
    let form = Form::default();
    assert_eq!(form.submission, Submission::default());
    assert_eq!(form.sat_tmp_unit, SaturationCurveUnit::WCM2);
    assert!(form.sat_tmp_fit);
    for text in [
        &form.rimsschemedrawer_in,
        &form.sat_tmp_title,
        &form.sat_tmp_notes,
        &form.sat_tmp_xdat,
        &form.sat_tmp_xdat_unc,
        &form.sat_tmp_ydat,
        &form.sat_tmp_ydat_unc,
        &form.reference_id,
        &form.reference_authors,
        &form.reference_year,
        &form.error_reference,
        &form.error_rimsschemedrawer_in,
        &form.error_saturation,
        &form.error_submission,
    ] {
        assert_eq!(text, "");
    }
}

#[test]
fn curve_with_a_known_title_takes_its_place() {
    let mut curves = vec![curve("a", "1", "1"), curve("b", "2", "2"), curve("c", "3", "3")];
    put_curve(&mut curves, curve("b", "7,8", "9,10"));
    assert_eq!(curves.len(), 3);
    assert_eq!(curves, vec![curve("a", "1", "1"), curve("b", "7,8", "9,10"), curve("c", "3", "3")]);
    put_curve(&mut curves, curve("d", "4", "4"));
    assert_eq!(curves.len(), 4);
    assert_eq!(curves[3], curve("d", "4", "4"));
}

#[test]
fn first_of_two_curves_with_one_title_is_replaced() {
    let mut curves = vec![curve("a", "1", "1"), curve("a", "2", "2")];
    put_curve(&mut curves, curve("a", "3", "3"));
    assert_eq!(curves, vec![curve("a", "3", "3"), curve("a", "2", "2")]);
}

#[test]
fn reference_with_a_known_id_takes_its_place() {
    let mut refs = vec![ReferenceEntry::new_from_doi("10.1/1"), ReferenceEntry::new_from_doi("10.2/2")];
    put_reference(&mut refs, ReferenceEntry::new_from_url("10.1/1", "Some One", 2000));
    assert_eq!(
        refs,
        vec![
            ReferenceEntry::new_from_url("10.1/1", "Some One", 2000),
            ReferenceEntry::new_from_doi("10.2/2"),
        ]
    );
    put_reference(&mut refs, ReferenceEntry::new_from_doi("10.3/3"));
    assert_eq!(refs.len(), 3);
    assert_eq!(refs[2], ReferenceEntry::new_from_doi("10.3/3"));
}

#[test]
fn adding_a_curve_empties_the_editor() {
    let mut form = Form::default();
    form.sat_tmp_notes = "notes".to_string();
    form.sat_tmp_unit = SaturationCurveUnit::W;
    form.sat_tmp_fit = false;
    form.sat_tmp_xdat_unc = "0.1".to_string();
    form.sat_tmp_ydat_unc = "0.2".to_string();
    form.error_saturation = "old message".to_string();
    enter_curve(&mut form, "first", "1", "2");
    assert_eq!(form.submission.saturation_curves.len(), 1);
    let c = &form.submission.saturation_curves[0];
    assert_eq!(c.title, "first");
    assert_eq!(c.notes, "notes");
    assert_eq!(c.units, SaturationCurveUnit::W);
    assert!(!c.fit);
    assert_eq!(c.xdat_unc, Some(vec!["0.1".to_string()]));
    assert_eq!(form.sat_tmp_title, "");
    assert_eq!(form.sat_tmp_notes, "");
    assert!(form.sat_tmp_fit);
    assert_eq!(form.sat_tmp_unit, SaturationCurveUnit::W);
    assert_eq!(form.sat_tmp_xdat, "");
    assert_eq!(form.sat_tmp_xdat_unc, "");
    assert_eq!(form.sat_tmp_ydat, "");
    assert_eq!(form.sat_tmp_ydat_unc, "");
    assert_eq!(form.error_saturation, "");
}

#[test]
fn adding_a_curve_twice_updates_it() {
    let mut form = Form::default();
    enter_curve(&mut form, "a", "1,2", "3,4");
    enter_curve(&mut form, "b", "5", "6");
    enter_curve(&mut form, "a", "7,8,9", "1,2,3");
    assert_eq!(titles(&form), vec!["a", "b"]);
    assert_eq!(form.submission.saturation_curves[0], curve("a", "7,8,9", "1,2,3"));
    assert_eq!(form.submission.saturation_curves[1], curve("b", "5", "6"));
}

#[test]
fn a_curve_that_is_wrong_stays_in_the_editor() {
    let mut form = Form::default();
    enter_curve(&mut form, "a", "1", "1");
    let before = form.submission.clone();
    enter_curve(&mut form, "", "1", "1");
    assert_eq!(form.error_saturation, "Title cannot be empty.");
    assert_eq!(form.sat_tmp_xdat, "1");
    enter_curve(&mut form, "b", "1,2", "1");
    assert_eq!(form.error_saturation, "X and Y data lengths do not match.");
    assert_eq!(form.sat_tmp_title, "b");
    assert_eq!(form.sat_tmp_xdat, "1,2");
    assert_eq!(form.sat_tmp_ydat, "1");
    enter_curve(&mut form, "b", "", "1");
    assert_eq!(form.error_saturation, "Please enter some data.");
    assert_eq!(form.submission, before);
    assert_eq!(form.error_reference, "");
    assert_eq!(form.error_submission, "");
    enter_curve(&mut form, "b", "1", "1");
    assert_eq!(form.error_saturation, "");
    assert_eq!(titles(&form), vec!["a", "b"]);
}

#[test]
fn curves_are_moved_edited_and_deleted() {
    let mut form = Form::default();
    enter_curve(&mut form, "a", "1", "1");
    enter_curve(&mut form, "b", "2 3", "4 5");
    enter_curve(&mut form, "c", "3", "3");
    form.move_saturation_curve_up(0);
    assert_eq!(titles(&form), vec!["a", "b", "c"]);
    form.move_saturation_curve_up(2);
    assert_eq!(titles(&form), vec!["a", "c", "b"]);
    form.move_saturation_curve_down(0);
    assert_eq!(titles(&form), vec!["c", "a", "b"]);
    form.move_saturation_curve_down(2);
    form.move_saturation_curve_down(3);
    form.move_saturation_curve_up(3);
    assert_eq!(titles(&form), vec!["c", "a", "b"]);
    form.edit_saturation_curve(2);
    assert_eq!(form.sat_tmp_title, "b");
    assert_eq!(form.sat_tmp_xdat, "2, 3");
    assert_eq!(form.sat_tmp_ydat, "4, 5");
    assert_eq!(form.sat_tmp_xdat_unc, "");
    form.sat_tmp_ydat = "6 7".to_string();
    form.add_or_update_saturation_curve();
    assert_eq!(titles(&form), vec!["c", "a", "b"]);
    assert_eq!(form.submission.saturation_curves[2].ydat, vec!["6", "7"]);
    form.delete_saturation_curve(1);
    assert_eq!(titles(&form), vec!["c", "b"]);
    form.delete_saturation_curve(2);
    form.edit_saturation_curve(2);
    assert_eq!(titles(&form), vec!["c", "b"]);
    assert_eq!(form.sat_tmp_title, "");
    let mut empty = Form::default();
    empty.move_saturation_curve_down(0);
    empty.move_reference_down(0);
    assert_eq!(empty, Form::default());
}

#[test]
fn references_are_entered_as_doi_or_url() {
    let mut form = Form::default();
    enter_reference(&mut form, "10.500/123456789", "", "");
    assert_eq!(form.submission.references, vec![ReferenceEntry::new_from_doi("10.500/123456789")]);
    assert_eq!(form.reference_id, "");
    enter_reference(&mut form, "https://a.b/c", "Some One", "2001");
    assert_eq!(form.submission.references[1], ReferenceEntry::new_from_url("https://a.b/c", "Some One", 2001));
    enter_reference(&mut form, "10.1/2", "Dropped", "");
    assert_eq!(form.submission.references[2], ReferenceEntry::new_from_doi("10.1/2"));
    enter_reference(&mut form, "10.3/4", "", "1999");
    assert_eq!(form.submission.references[3], ReferenceEntry::new_from_doi("10.3/4"));
    enter_reference(&mut form, "10.5/6", "Some One", "+1999");
    assert_eq!(form.submission.references[4], ReferenceEntry::new_from_url("10.5/6", "Some One", 1999));
    assert_eq!(form.error_reference, "");
    assert_eq!(form.submission.references.len(), 5);
}

#[test]
fn a_reference_that_is_wrong_stays_in_the_editor() {
    let mut form = Form::default();
    enter_reference(&mut form, "", "Some One", "2001");
    assert_eq!(form.error_reference, "Reference is empty");
    enter_reference(&mut form, "https://doi.org/10.500/123456789", "", "");
    assert_eq!(
        form.error_reference,
        "This does not look like a DOI. If that is intentional, please fill in the Author and Year data."
    );
    assert_eq!(form.reference_id, "https://doi.org/10.500/123456789");
    enter_reference(&mut form, "no-slash-here", "Some One", "");
    assert_eq!(
        form.error_reference,
        "This does not look like a DOI. If that is intentional, please fill in the Author and Year data."
    );
    for year in ["twenty", "20.5", "-2001", " 2001", "99999999999999999999999"] {
        enter_reference(&mut form, "https://a.b/c", "Some One", year);
        assert_eq!(form.error_reference, "Cannot parse year. Please check it is a number.");
        assert_eq!(form.reference_year, year);
    }
    assert!(form.submission.references.is_empty());
    assert_eq!(form.error_saturation, "");
    enter_reference(&mut form, "https://a.b/c", "Some One", "2001");
    assert_eq!(form.error_reference, "");
    assert_eq!(form.submission.references.len(), 1);
}

#[test]
fn references_are_moved_edited_and_deleted() {
    let mut form = Form::default();
    enter_reference(&mut form, "10.1/1", "", "");
    enter_reference(&mut form, "u", "Some One", "2001");
    enter_reference(&mut form, "10.3/3", "", "");
    form.move_reference_up(1);
    assert_eq!(ids(&form), vec!["u", "10.1/1", "10.3/3"]);
    form.move_reference_down(1);
    assert_eq!(ids(&form), vec!["u", "10.3/3", "10.1/1"]);
    form.move_reference_up(0);
    form.move_reference_down(2);
    assert_eq!(ids(&form), vec!["u", "10.3/3", "10.1/1"]);
    form.edit_reference(0);
    assert_eq!(form.reference_id, "u");
    assert_eq!(form.reference_authors, "Some One");
    assert_eq!(form.reference_year, "2001");
    form.reference_year = "2002".to_string();
    form.add_or_update_reference();
    assert_eq!(ids(&form), vec!["u", "10.3/3", "10.1/1"]);
    assert_eq!(form.submission.references[0].year, 2002);
    form.edit_reference(1);
    assert_eq!(form.reference_id, "10.3/3");
    assert_eq!(form.reference_authors, "");
    assert_eq!(form.reference_year, "");
    form.delete_reference(0);
    assert_eq!(ids(&form), vec!["10.3/3", "10.1/1"]);
    form.delete_reference(5);
    assert_eq!(ids(&form), vec!["10.3/3", "10.1/1"]);
}

#[test]
fn clear_all_forgets_everything() {
    let mut form = Form::default();
    form.submission.notes = "n".to_string();
    form.submission.scheme_element = Elements::U;
    form.submission.scheme_transitions[3].level = "5".to_string();
    enter_curve(&mut form, "a", "1", "1");
    enter_reference(&mut form, "nothing", "", "");
    form.sat_tmp_title = "pending".to_string();
    form.rimsschemedrawer_in = "{}".to_string();
    form.error_submission = "e".to_string();
    assert_ne!(form, Form::default());
    form.clear_all();
    assert_eq!(form, Form::default());
}

const DOCUMENT: &str =
    r#"{"scheme": {"element": "U", "lasers": "Dye", "unit": "nm", "step_level0": "400"}, "notes": "read"}"#;

#[test]
fn import_replaces_the_submission_whole() {
    let mut form = Form::default();
    form.submission.notes = "before".to_string();
    form.submission.submitted_by = "A. Person".to_string();
    form.submission.scheme_transitions[4].level = "5".to_string();
    enter_curve(&mut form, "a", "1", "1");
    form.sat_tmp_title = "pending".to_string();
    form.error_rimsschemedrawer_in = "old".to_string();
    form.import(DOCUMENT.to_string());
    let mut expected = Submission::default();
    expected.scheme_element = Elements::U;
    expected.scheme_lasers = rimsdb_scheme_submission::model::Lasers::Dye;
    expected.scheme_unit = rimsdb_scheme_submission::model::TransitionUnit::NM;
    expected.scheme_transitions[0].level = "400".to_string();
    expected.notes = "read".to_string();
    assert_eq!(form.submission, expected);
    assert_eq!(form.error_rimsschemedrawer_in, "");
    assert_eq!(form.rimsschemedrawer_in, DOCUMENT);
    assert_eq!(form.sat_tmp_title, "pending");
}

#[test]
fn import_that_fails_leaves_the_submission() {
    let mut form = Form::default();
    form.submission.notes = "before".to_string();
    enter_curve(&mut form, "a", "1", "1");
    let before = form.submission.clone();
    form.import("{\"scheme\": {\"element\": \"U\"}}".to_string());
    assert_eq!(form.error_rimsschemedrawer_in, "No laser type found in the JSON file.");
    assert_eq!(form.submission, before);
    form.import("not json".to_string());
    assert_eq!(
        form.error_rimsschemedrawer_in,
        "Error reading JSON file: expected ident at line 1 column 2"
    );
    assert_eq!(form.rimsschemedrawer_in, "not json");
    assert_eq!(form.submission, before);
    assert_eq!(form.error_saturation, "");
    assert_eq!(form.error_submission, "");
    form.import(DOCUMENT.to_string());
    assert_eq!(form.error_rimsschemedrawer_in, "");
    assert_ne!(form.submission, before);
}

#[test]
fn export_gives_the_text_or_a_message() {
    let mut form = Form::default();
    assert_eq!(form.export(), "");
    assert_eq!(
        form.error_submission,
        "Error creating JSON output: No transitions entered: Please add at least one step."
    );
    form.submission.scheme_transitions[0].level = "400".to_string();
    assert_eq!(form.export(), "");
    assert_eq!(form.error_submission, "Error creating JSON output: Please enter your name.");
    form.submission.submitted_by = "A. Person".to_string();
    let body = form.export();
    assert_eq!(form.error_submission, "");
    assert_eq!(
        body,
        rimsdb_scheme_submission::codec::create_json_output(&form.submission).unwrap()
    );
    assert!(body.starts_with("{\n  \"notes\": \"\",\n  \"rims_scheme\": {"));
    let mut other = Form::default();
    other.import(body);
    assert_eq!(other.submission, form.submission);
}

#[test]
fn a_curve_that_was_read_is_edited_and_added_again() {
    let text = r#"{"scheme": {"element": "U", "lasers": "Dye", "unit": "nm"},
        "saturation_curves": [{"title": "small", "data": {"x": [0.00001, 2e-7], "y": [1, 2e-3]}}]}"#;
    let mut form = Form::default();
    form.import(text.to_string());
    assert_eq!(form.error_rimsschemedrawer_in, "");
    assert_eq!(form.submission.saturation_curves[0].xdat, vec!["0.00001", "2e-7"]);
    assert_eq!(form.submission.saturation_curves[0].ydat, vec!["1", "0.002"]);
    form.edit_saturation_curve(0);
    assert_eq!(form.sat_tmp_title, "small");
    assert_eq!(form.sat_tmp_xdat, "0.00001, 0.0000002");
    assert_eq!(form.sat_tmp_ydat, "1, 0.002");
    form.add_or_update_saturation_curve();
    assert_eq!(form.error_saturation, "");
    assert_eq!(form.submission.saturation_curves.len(), 1);
    let c = &form.submission.saturation_curves[0];
    assert_eq!(c.xdat, vec!["0.00001", "0.0000002"]);
    assert_eq!(c.ydat, vec!["1", "0.002"]);
    let x: Vec<f64> = c.xdat.iter().map(|t| t.parse().unwrap()).collect();
    assert_eq!(x, vec![0.00001, 2e-7]);
}
