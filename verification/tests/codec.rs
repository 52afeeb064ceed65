use rimsdb_scheme_submission::codec::{
    create_json_output, from_document, json_array_to_f64, load_config_file, to_document,
};
use rimsdb_scheme_submission::elements::Elements;
use rimsdb_scheme_submission::json::{parse_json, print_json, printable_json, Json, Member};
use rimsdb_scheme_submission::model::{
    GroundState, Lasers, ReferenceEntry, SaturationCurve, SaturationCurveUnit, Submission,
    Transition, TransitionUnit,
};

fn step(level: &str, term: &str, strength: &str, low_lying: bool, forbidden: bool) -> Transition {
    Transition {
        level: level.to_string(),
        term_symbol: term.to_string(),
        transition_strength: strength.to_string(),
        low_lying,
        forbidden,
    }
}

fn small_submission() -> Submission {
    let mut m = Submission::default();
    m.scheme_element = Elements::Ti;
    m.scheme_transitions[0] = step("25000.5", "3F2", "", false, false);
    m.submitted_by = "A. Person".to_string();
    m
}

fn full_submission() -> Submission {
    let mut m = small_submission();
    m.notes = "first line\nsecond line".to_string();
    m.scheme_gs = GroundState { level: "0".to_string(), term_symbol: "a3F2".to_string() };
    m.scheme_ip_term_symbol = "4F3/2".to_string();
    m.scheme_lasers = Lasers::Both;
    m.scheme_unit = TransitionUnit::NM;
    m.scheme_last_step_to_ip = true;
    m.scheme_transitions[1] = step("170.13", "3F3", "1e6", true, false);
    m.scheme_transitions[3] = step("416.2", "", "2.5", false, true);
    m.references.push(ReferenceEntry::new_from_doi("10.500/123456789"));
    m.references.push(ReferenceEntry::new_from_url("https://example.org/a", "Wendt et al.", 2014));
    m.saturation_curves.push(
        SaturationCurve::new_from_parts(
            "first",
            "beam 2 mm",
            &SaturationCurveUnit::W,
            false,
            "1,2,3",
            "0.1,0.2,0.3",
            "4,5,6",
            "",
        )
        .unwrap(),
    );
    m.saturation_curves.push(
        SaturationCurve::new_from_parts(
            "second",
            "",
            &SaturationCurveUnit::WCM2,
            true,
            "1.5 2.5",
            "",
            "10 20",
            "1 2",
        )
        .unwrap(),
    );
    m
}

#[test]
fn document_text_of_a_small_submission() {
    let expected = r#"{
  "notes": "",
  "rims_scheme": {
    "scheme": {
      "element": "Ti",
      "lasers": "Ti:Sa",
      "last_step_to_ip": false,
      "gs_term": "",
      "gs_level": "0",
      "ip_term": "",
      "unit": "cm<sup>-1</sup>",
      "step_level0": "25000.5",
      "step_term0": "3F2",
      "trans_strength0": "",
      "step_forbidden0": false,
      "step_lowlying0": false
    }
  },
  "references": [],
  "submitted_by": "A. Person",
  "saturation_curves": []
}"#;
    assert_eq!(create_json_output(&small_submission()), Ok(expected.to_string()));
}

#[test]
fn document_text_of_a_full_submission() {
    let expected = r#"{
  "notes": "first line\nsecond line",
  "rims_scheme": {
    "scheme": {
      "element": "Ti",
      "lasers": "Ti:Sa and Dye",
      "last_step_to_ip": true,
      "gs_term": "a3F2",
      "gs_level": "0",
      "ip_term": "4F3/2",
      "unit": "nm",
      "step_level0": "25000.5",
      "step_term0": "3F2",
      "trans_strength0": "",
      "step_forbidden0": false,
      "step_lowlying0": false,
      "step_level1": "170.13",
      "step_term1": "3F3",
      "trans_strength1": "1e6",
      "step_forbidden1": false,
      "step_lowlying1": true,
      "step_level3": "416.2",
      "step_term3": "",
      "trans_strength3": "2.5",
      "step_forbidden3": true,
      "step_lowlying3": false
    }
  },
  "references": [
    {
      "id": "10.500/123456789",
      "authors": "",
      "year": 0
    },
    {
      "id": "https://example.org/a",
      "authors": "Wendt et al.",
      "year": 2014
    }
  ],
  "submitted_by": "A. Person",
  "saturation_curves": [
    {
      "title": "first",
      "notes": "beam 2 mm",
      "unit": "W",
      "fit": false,
      "data": {
        "x": [
          1.0,
          2.0,
          3.0
        ],
        "y": [
          4.0,
          5.0,
          6.0
        ],
        "x_err": [
          0.1,
          0.2,
          0.3
        ]
      }
    },
    {
      "title": "second",
      "notes": "",
      "unit": "W * cm^-2",
      "fit": true,
      "data": {
        "x": [
          1.5,
          2.5
        ],
        "y": [
          10.0,
          20.0
        ],
        "y_err": [
          1.0,
          2.0
        ]
      }
    }
  ]
}"#;
    assert_eq!(create_json_output(&full_submission()), Ok(expected.to_string()));
}

#[test]
fn export_needs_the_name_of_the_submitter() {
    let mut m = full_submission();
    for i in 0..7 {
        m.scheme_transitions[i] = step("1", "", "", false, false);
    }
    m.submitted_by = String::new();
    assert_eq!(create_json_output(&m), Err("Please enter your name.".to_string()));
    assert_eq!(to_document(&m), Err("Please enter your name.".to_string()));
}

#[test]
fn export_needs_a_first_step() {
    let mut m = full_submission();
    m.scheme_transitions[0].level = String::new();
    let message = create_json_output(&m).unwrap_err();
    assert!(message.starts_with("No transitions entered"));
    assert_eq!(message, "No transitions entered: Please add at least one step.");
    m.submitted_by = String::new();
    assert_eq!(create_json_output(&m).unwrap_err(), message);
}

#[test]
fn export_checks_each_numeric_field() {
    let mut m = small_submission();
    m.scheme_gs.level = String::new();
    assert_eq!(create_json_output(&m), Err("Ground state level is empty.".to_string()));
    m.scheme_gs.level = "ground".to_string();
    assert_eq!(create_json_output(&m), Err("Ground state level is not a number.".to_string()));
    m.scheme_gs.level = "0".to_string();
    m.scheme_transitions[2].level = "x".to_string();
    assert_eq!(create_json_output(&m), Err("Transition level is not a number.".to_string()));
    m.scheme_transitions[2].level = "5".to_string();
    m.scheme_transitions[2].transition_strength = "x".to_string();
    assert_eq!(create_json_output(&m), Err("Transition strength is not a number.".to_string()));
    // The strength of a step that is not used is not looked at.
    m.scheme_transitions[2].level = String::new();
    assert!(create_json_output(&m).is_ok());
    // The first step that is wrong is reported.
    m.scheme_transitions[1].transition_strength = "x".to_string();
    m.scheme_transitions[1].level = "1".to_string();
    m.scheme_transitions[4].level = "x".to_string();
    assert_eq!(create_json_output(&m), Err("Transition strength is not a number.".to_string()));
}

#[test]
fn steps_that_are_not_used_leave_gaps() {
    let mut m = small_submission();
    m.scheme_transitions[1] = step("", "kept nowhere", "7", true, true);
    m.scheme_transitions[6] = step("3", "", "", false, false);
    let text = create_json_output(&m).unwrap();
    assert!(text.contains("\"step_level0\""));
    assert!(!text.contains("step_level1"));
    assert!(!text.contains("step_term1"));
    assert!(!text.contains("kept nowhere"));
    assert!(text.contains("\"step_level6\": \"3\""));
    assert!(!text.contains("null"));
}

#[test]
fn numbers_without_a_json_literal_are_written_as_null() {
    let mut m = small_submission();
    m.saturation_curves.push(
        SaturationCurve::new_from_parts(
            "t",
            "",
            &SaturationCurveUnit::W,
            true,
            "1 inf",
            "",
            "nan 2",
            "",
        )
        .unwrap(),
    );
    let doc = to_document(&m).unwrap();
    let curves = doc.get("saturation_curves").unwrap().as_array().unwrap();
    let data = curves[0].get("data").unwrap();
    assert_eq!(
        data.get("x"),
        Some(&Json::Array(vec![Json::Number("1.0".to_string()), Json::Null]))
    );
    assert_eq!(
        data.get("y"),
        Some(&Json::Array(vec![Json::Null, Json::Number("2.0".to_string())]))
    );
    let text = create_json_output(&m).unwrap();
    assert_eq!(
        load_config_file(&text),
        Err("None-numeric value found in data.".to_string())
    );
}

#[test]
fn a_number_beyond_the_float_range_is_written_as_null() {
    let mut m = small_submission();
    m.saturation_curves.push(
        SaturationCurve::new_from_parts(
            "t",
            "",
            &SaturationCurveUnit::W,
            true,
            "1e999 1.7976931348623157e308 1.7976931348623159e308",
            "",
            "1 2 3",
            "",
        )
        .unwrap(),
    );
    let doc = to_document(&m).unwrap();
    let curves = doc.get("saturation_curves").unwrap().as_array().unwrap();
    assert_eq!(
        curves[0].get("data").unwrap().get("x"),
        Some(&Json::Array(vec![
            Json::Number("1.0e999".to_string()),
            Json::Number("1.7976931348623157e308".to_string()),
            Json::Number("1.7976931348623159e308".to_string()),
        ]))
    );
    let text = create_json_output(&m).unwrap();
    assert!(text.contains(
        "\"x\": [\n          null,\n          1.7976931348623157e+308,\n          null\n        ]"
    ), "{text}");
    for t in ["1e999", "1.7976931348623159e308"] {
        assert!(t.parse::<f64>().unwrap().is_infinite());
    }
    assert_eq!(load_config_file(&text), Err("None-numeric value found in data.".to_string()));
}

#[test]
fn a_tree_is_printable_once_unread_numbers_are_null() {
    let doc = Json::Object(vec![
        Member { key: "a".to_string(), value: Json::Number("1e999".to_string()) },
        Member {
            key: "b".to_string(),
            value: Json::Array(vec![
                Json::Number("1.5".to_string()),
                Json::Number("+1".to_string()),
                Json::Str("1e999".to_string()),
                Json::Object(vec![Member { key: "c".to_string(), value: Json::Number("x".to_string()) }]),
            ]),
        },
    ]);
    assert!(print_json(&doc).is_err());
    let expected = Json::Object(vec![
        Member { key: "a".to_string(), value: Json::Null },
        Member {
            key: "b".to_string(),
            value: Json::Array(vec![
                Json::Number("1.5".to_string()),
                Json::Null,
                Json::Str("1e999".to_string()),
                Json::Object(vec![Member { key: "c".to_string(), value: Json::Null }]),
            ]),
        },
    ]);
    assert_eq!(printable_json(&doc), expected);
    assert!(print_json(&printable_json(&doc)).is_ok());
    assert_eq!(printable_json(&expected), expected);
}

#[test]
fn written_text_is_read_back() {
    let m = full_submission();
    let text = create_json_output(&m).unwrap();
    let back = load_config_file(&text).unwrap();
    let mut expected = full_submission();
    for curve in expected.saturation_curves.iter_mut() {
        for list in [&mut curve.xdat, &mut curve.ydat] {
            for t in list.iter_mut() {
                *t = format!("{:?}", t.parse::<f64>().unwrap());
            }
        }
    }
    expected.saturation_curves[0].xdat_unc =
        Some(vec!["0.1".to_string(), "0.2".to_string(), "0.3".to_string()]);
    expected.saturation_curves[1].ydat_unc = Some(vec!["1.0".to_string(), "2.0".to_string()]);
    assert_eq!(back, expected);
    // Written once more, the text is the same.
    assert_eq!(create_json_output(&back), Ok(text));
}

#[test]
fn written_document_is_read_back() {
    let mut m = full_submission();
    m.scheme_transitions[5] = step("", "left over", "1", true, true);
    let doc = to_document(&m).unwrap();
    let back = from_document(&doc).unwrap();
    let mut expected = full_submission();
    let literals = |v: &mut Vec<String>, l: &[&str]| {
        *v = l.iter().map(|s| s.to_string()).collect();
    };
    literals(&mut expected.saturation_curves[0].xdat, &["1.0", "2.0", "3.0"]);
    literals(&mut expected.saturation_curves[0].ydat, &["4.0", "5.0", "6.0"]);
    literals(&mut expected.saturation_curves[1].xdat, &["1.5", "2.5"]);
    literals(&mut expected.saturation_curves[1].ydat, &["10.0", "20.0"]);
    expected.saturation_curves[1].ydat_unc = Some(vec!["1.0".to_string(), "2.0".to_string()]);
    assert_eq!(back, expected);
}

const NEWER: &str = r#"{
  "rims_scheme": {
    "scheme": {
      "element": "Fe", "gs_level": "12.5", "gs_term": "a5D4", "ip_term": "a6D9/2",
      "lasers": "Dye", "last_step_to_ip": true, "unit": "nm",
      "step_level0": "302.064", "step_term0": "w5F5", "trans_strength0": "1.0e7",
      "step_forbidden0": true, "step_lowlying0": false,
      "step_level2": "415.9", "step_lowlying2": true
    },
    "settings": {"fig_width": 5}
  },
  "notes": "made elsewhere",
  "submitted_by": "B. Person"
}"#;

const OLDER: &str = r#"{
  "scheme": {
    "element": "Fe", "gs_level": "12.5", "gs_term": "a5D4", "ip_term": "a6D9/2",
    "lasers": "Dye", "last_step_to_ip": true, "unit": "nm",
    "step_level0": "302.064", "step_term0": "w5F5", "trans_strength0": "1.0e7",
    "step_forbidden0": true, "step_lowlying0": false,
    "step_level2": "415.9", "step_lowlying2": true
  },
  "settings": {"fig_width": 5},
  "notes": "made elsewhere",
  "submitted_by": "B. Person"
}"#;

#[test]
fn newer_layout_is_read() {
    let m = load_config_file(NEWER).unwrap();
    assert_eq!(m.scheme_element, Elements::Fe);
    assert_eq!(m.scheme_gs, GroundState { level: "12.5".to_string(), term_symbol: "a5D4".to_string() });
    assert_eq!(m.scheme_ip_term_symbol, "a6D9/2");
    assert_eq!(m.scheme_lasers, Lasers::Dye);
    assert!(m.scheme_last_step_to_ip);
    assert_eq!(m.scheme_unit, TransitionUnit::NM);
    assert_eq!(m.scheme_transitions[0], step("302.064", "w5F5", "1.0e7", false, true));
    assert_eq!(m.scheme_transitions[1], Transition::new_empty());
    assert_eq!(m.scheme_transitions[2], step("415.9", "", "", true, false));
    for i in 3..7 {
        assert_eq!(m.scheme_transitions[i], Transition::new_empty());
    }
    assert_eq!(m.notes, "made elsewhere");
    assert_eq!(m.submitted_by, "B. Person");
    assert!(m.references.is_empty());
    assert!(m.saturation_curves.is_empty());
}

#[test]
fn older_layout_is_read_like_the_newer() {
    assert_eq!(load_config_file(OLDER), load_config_file(NEWER));
    assert!(load_config_file(OLDER).is_ok());
}

#[test]
fn newer_layout_goes_first() {
    let text = r#"{
      "rims_scheme": {"scheme": {"element": "H", "lasers": "Dye", "unit": "nm"}},
      "scheme": {"element": "He", "lasers": "Ti:Sa", "unit": "cm"}
    }"#;
    let m = load_config_file(text).unwrap();
    assert_eq!(m.scheme_element, Elements::H);
    assert_eq!(m.scheme_lasers, Lasers::Dye);
    let text = r#"{
      "rims_scheme": "no object",
      "scheme": {"element": "He", "lasers": "Ti:Sa", "unit": "cm"}
    }"#;
    let m = load_config_file(text).unwrap();
    assert_eq!(m.scheme_element, Elements::He);
    assert_eq!(m.scheme_unit, TransitionUnit::CM1);
}

#[test]
fn what_a_document_leaves_out_is_filled_in() {
    let m = load_config_file(r#"{"scheme": {"element": "U", "lasers": "Ti:Sa", "unit": "x"}}"#)
        .unwrap();
    let mut expected = Submission::default();
    expected.scheme_element = Elements::U;
    assert_eq!(m, expected);
    assert_eq!(m.scheme_gs.level, "0");
    assert_eq!(m.scheme_unit, TransitionUnit::CM1);
}

#[test]
fn a_document_needs_a_scheme() {
    let message = Err("No 'rims_scheme' or 'scheme' key found.".to_string());
    assert_eq!(load_config_file("{}"), message);
    assert_eq!(load_config_file("[]"), message);
    assert_eq!(load_config_file("null"), message);
    assert_eq!(load_config_file(r#"{"scheme": "text", "rims_scheme": 5}"#), message);
    assert_eq!(load_config_file(r#"{"notes": "n"}"#), message);
}

#[test]
fn a_scheme_needs_element_lasers_and_unit() {
    let load = |scheme: &str| load_config_file(&format!("{{\"scheme\": {scheme}}}"));
    assert_eq!(load("{}"), Err("No element found in the JSON file.".to_string()));
    assert_eq!(
        load(r#"{"element": 5, "lasers": "Dye", "unit": "nm"}"#),
        Err("No element found in the JSON file.".to_string())
    );
    assert_eq!(
        load(r#"{"element": "Xx", "lasers": "Dye", "unit": "nm"}"#),
        Err("Element Xx not found.".to_string())
    );
    assert_eq!(
        load(r#"{"element": "H", "unit": "nm"}"#),
        Err("No laser type found in the JSON file.".to_string())
    );
    assert_eq!(
        load(r#"{"element": "H", "lasers": "Laser", "unit": "nm"}"#),
        Err("Laser type not found.".to_string())
    );
    assert_eq!(
        load(r#"{"element": "H", "lasers": "Dye"}"#),
        Err("No unit found in the JSON file.".to_string())
    );
    assert_eq!(
        load(r#"{"element": "H", "lasers": "Dye", "unit": 1}"#),
        Err("No unit found in the JSON file.".to_string())
    );
    assert_eq!(
        load_config_file(r#"{"rims_scheme": {"no scheme": 1}}"#),
        Err("No element found in the JSON file.".to_string())
    );
}

#[test]
fn text_that_is_no_json_is_rejected() {
    let message = load_config_file("{not json").unwrap_err();
    assert!(message.starts_with("Error reading JSON file: "), "{message}");
    assert_eq!(message, "Error reading JSON file: key must be a string at line 1 column 2");
    let message = load_config_file("").unwrap_err();
    assert_eq!(message, "Error reading JSON file: EOF while parsing a value at line 1 column 0");
}

fn with_scheme(rest: &str) -> String {
    format!("{{\"scheme\": {{\"element\": \"H\", \"lasers\": \"Dye\", \"unit\": \"nm\"}}, {rest}}}")
}

#[test]
fn references_without_an_id_are_passed_over() {
    let text = with_scheme(
        r#""references": [
            {"id": "10.1/2"},
            {"authors": "Nobody", "year": 1999},
            {"id": 5},
            {"id": "https://a.b/c", "authors": "Some One", "year": 2001},
            {"id": "10.3/4", "year": 2.5},
            {"id": "10.5/6", "year": -3, "authors": 7},
            {"id": "u", "year": 1999},
            "text"
        ]"#,
    );
    let m = load_config_file(&text).unwrap();
    assert_eq!(
        m.references,
        vec![
            ReferenceEntry::new_from_doi("10.1/2"),
            ReferenceEntry::new_from_url("https://a.b/c", "Some One", 2001),
            ReferenceEntry::new_from_doi("10.3/4"),
            ReferenceEntry::new_from_doi("10.5/6"),
            ReferenceEntry::new_from_url("u", "", 1999),
        ]
    );
    let m = load_config_file(&with_scheme(r#""references": {"id": "10.1/2"}"#)).unwrap();
    assert!(m.references.is_empty());
}

#[test]
fn curves_are_read_with_their_defaults() {
    let text = with_scheme(
        r#""saturation_curves": [
            {"title": "a", "data": {"x": [1, 2.5, 1e-7], "y": [3, 4, -5]}},
            {"notes": "no title", "data": {}},
            {"title": "b", "notes": "n", "unit": "W", "fit": false,
             "data": {"x": [7], "y": [1], "x_err": [0.5], "y_err": [0.25]}},
            {"title": "c", "unit": "mW", "fit": "yes", "data": {"x": [1], "y": [2], "x_err": 3}}
        ]"#,
    );
    let m = load_config_file(&text).unwrap();
    let texts = |v: &[&str]| v.iter().map(|s| s.to_string()).collect::<Vec<String>>();
    assert_eq!(
        m.saturation_curves,
        vec![
            SaturationCurve {
                title: "a".to_string(),
                notes: String::new(),
                units: SaturationCurveUnit::WCM2,
                fit: true,
                xdat: texts(&["1", "2.5", "1e-7"]),
                xdat_unc: None,
                ydat: texts(&["3", "4", "-5"]),
                ydat_unc: None,
            },
            SaturationCurve {
                title: "b".to_string(),
                notes: "n".to_string(),
                units: SaturationCurveUnit::W,
                fit: false,
                xdat: texts(&["7"]),
                xdat_unc: Some(texts(&["0.5"])),
                ydat: texts(&["1"]),
                ydat_unc: Some(texts(&["0.25"])),
            },
            SaturationCurve {
                title: "c".to_string(),
                notes: String::new(),
                units: SaturationCurveUnit::WCM2,
                fit: true,
                xdat: texts(&["1"]),
                xdat_unc: None,
                ydat: texts(&["2"]),
                ydat_unc: None,
            },
        ]
    );
}

#[test]
fn curves_need_their_data() {
    let load = |curve: &str| load_config_file(&with_scheme(&format!("\"saturation_curves\": [{curve}]")));
    assert_eq!(
        load(r#"{"title": "first", "data": {"y": [1]}}"#),
        Err("No saturation x data found in the JSON file for first.".to_string())
    );
    assert_eq!(
        load(r#"{"title": "first", "data": {"x": [1]}}"#),
        Err("No saturation y data found in the JSON file for first.".to_string())
    );
    assert_eq!(
        load(r#"{"title": "first"}"#),
        Err("No saturation x data found in the JSON file for first.".to_string())
    );
    let not_numeric = Err("None-numeric value found in data.".to_string());
    assert_eq!(load(r#"{"title": "t", "data": {"x": [1, "2"], "y": [1, 2]}}"#), not_numeric);
    assert_eq!(load(r#"{"title": "t", "data": {"x": [1, 2], "y": [null]}}"#), not_numeric);
    assert_eq!(load(r#"{"title": "t", "data": {"x": [1], "y": [1], "x_err": [true]}}"#), not_numeric);
    assert_eq!(load(r#"{"title": "t", "data": {"x": [1], "y": [1], "y_err": [[1]]}}"#), not_numeric);
    assert_eq!(
        load(r#"{"title": "t", "data": {"x": ["a"]}}"#),
        Err("None-numeric value found in data.".to_string())
    );
}

#[test]
fn arrays_of_numbers_are_read_by_their_literals() {
    let items = vec![Json::Number("1".to_string()), Json::Number("2.5e3".to_string())];
    assert_eq!(json_array_to_f64(&items), Ok(vec!["1".to_string(), "2.5e3".to_string()]));
    assert_eq!(json_array_to_f64(&vec![]), Ok(vec![]));
    let items = vec![Json::Number("1".to_string()), Json::Str("2".to_string())];
    assert_eq!(json_array_to_f64(&items), Err("None-numeric value found in data.".to_string()));
    let items = vec![Json::Number("one".to_string())];
    assert_eq!(json_array_to_f64(&items), Err("None-numeric value found in data.".to_string()));
}

#[test]
fn the_last_of_two_members_with_one_key_counts() {
    let doc = Json::Object(vec![
        Member { key: "a".to_string(), value: Json::Bool(false) },
        Member { key: "b".to_string(), value: Json::Null },
        Member { key: "a".to_string(), value: Json::Bool(true) },
    ]);
    assert_eq!(doc.get("a"), Some(&Json::Bool(true)));
    assert_eq!(doc.get("b"), Some(&Json::Null));
    assert_eq!(doc.get("c"), None);
    assert_eq!(Json::Array(vec![]).get("a"), None);
    assert_eq!(doc.get("a").unwrap().as_bool(), Some(true));
    assert_eq!(doc.get("a").unwrap().as_str(), None);
    assert!(doc.is_object());
    assert!(!Json::Null.is_object());
    assert_eq!(Json::Str("s".to_string()).as_str(), Some(&"s".to_string()));
    assert_eq!(Json::Number("1".to_string()).as_number(), Some(&"1".to_string()));
    assert_eq!(Json::Str("1".to_string()).as_number(), None);
    assert_eq!(Json::Array(vec![Json::Null]).as_array(), Some(&vec![Json::Null]));
    assert_eq!(Json::Null.as_array(), None);
    let text = r#"{"scheme": {"element": "H", "element": "He", "lasers": "Dye", "unit": "nm"}}"#;
    assert_eq!(load_config_file(text).unwrap().scheme_element, Elements::He);
}

#[test]
fn years_are_whole_numbers_without_a_sign() {
    let load = |year: &str| {
        load_config_file(&with_scheme(&format!(
            "\"references\": [{{\"id\": \"u\", \"authors\": \"a\", \"year\": {year}}}]"
        )))
        .unwrap()
        .references[0]
            .year
    };
    assert_eq!(load("2014"), 2014);
    assert_eq!(load("0"), 0);
    assert_eq!(load("2014.0"), 0);
    assert_eq!(load("-2014"), 0);
    assert_eq!(load("\"2014\""), 0);
    assert_eq!(load("2e3"), 0);
    assert_eq!(load("18446744073709551615"), u64::MAX as usize);
    assert_eq!(load("18446744073709551616"), 0);
}

fn member(key: &str, value: Json) -> Member {
    Member { key: key.to_string(), value }
}

#[test]
fn text_is_parsed_into_a_tree() {
    let text = r#"{"b": [1, -2, 3.50, 1e3, 1E-7, null, true, "s"], "a": {"c": {}}, "b2": 18446744073709551616}"#;
    let expected = Json::Object(vec![
        member(
            "b",
            Json::Array(vec![
                Json::Number("1".to_string()),
                Json::Number("-2".to_string()),
                Json::Number("3.5".to_string()),
                Json::Number("1000.0".to_string()),
                Json::Number("1e-7".to_string()),
                Json::Null,
                Json::Bool(true),
                Json::Str("s".to_string()),
            ]),
        ),
        member("a", Json::Object(vec![member("c", Json::Object(vec![]))])),
        member("b2", Json::Number("1.8446744073709552e+19".to_string())),
    ]);
    assert_eq!(parse_json(text), Ok(expected));
    assert_eq!(
        parse_json("[1, 2"),
        Err("EOF while parsing a list at line 1 column 5".to_string())
    );
    assert_eq!(parse_json(" \"x\" "), Ok(Json::Str("x".to_string())));
}

#[test]
fn a_tree_is_printed_in_the_order_of_its_members() {
    let doc = Json::Object(vec![
        member("z", Json::Number("1.50".to_string())),
        member("a", Json::Array(vec![Json::Null, Json::Bool(false), Json::Number("7".to_string())])),
        member("m", Json::Object(vec![])),
        member("e", Json::Array(vec![])),
        member("s", Json::Str("a \"quoted\" text\n".to_string())),
    ]);
    let expected = "{\n  \"z\": 1.5,\n  \"a\": [\n    null,\n    false,\n    7\n  ],\n  \"m\": {},\n  \"e\": [],\n  \"s\": \"a \\\"quoted\\\" text\\n\"\n}";
    assert_eq!(print_json(&doc), Ok(expected.to_string()));
    assert_eq!(print_json(&Json::Null), Ok("null".to_string()));
    assert_eq!(
        print_json(&Json::Number("1.".to_string())),
        Err("EOF while parsing a value at line 1 column 2".to_string())
    );
    assert!(print_json(&Json::Number("+1".to_string())).is_err());
    assert!(print_json(&Json::Array(vec![Json::Number("nan".to_string())])).is_err());
    let back = parse_json(expected).unwrap();
    assert_eq!(back.get("z"), Some(&Json::Number("1.5".to_string())));
    assert_eq!(print_json(&back), Ok(expected.to_string()));
}

#[test]
fn curves_need_data_that_fit_together() {
    let load = |data: &str| {
        load_config_file(&with_scheme(&format!(
            "\"saturation_curves\": [{{\"title\": \"t\", \"data\": {data}}}]"
        )))
    };
    assert_eq!(
        load(r#"{"x": [1, 2], "y": [3]}"#),
        Err("X and Y data lengths do not match.".to_string())
    );
    assert_eq!(
        load(r#"{"x": [], "y": [3]}"#),
        Err("X and Y data lengths do not match.".to_string())
    );
    assert_eq!(
        load(r#"{"x": [1, 2], "y": [3, 4], "x_err": [0.1]}"#),
        Err("Uncertainty x data length does not match the x data length.".to_string())
    );
    assert_eq!(
        load(r#"{"x": [1, 2], "y": [3, 4], "x_err": [0.1, 0.2], "y_err": []}"#),
        Err("Uncertainty y data length does not match the y data length.".to_string())
    );
    // The first thing wrong is reported.
    assert_eq!(
        load(r#"{"x": [1, 2], "y": [3], "x_err": ["a"], "y_err": [1, 2, 3]}"#),
        Err("X and Y data lengths do not match.".to_string())
    );
    assert_eq!(
        load(r#"{"x": [1, 2], "y": [3, 4], "x_err": [1], "y_err": ["a"]}"#),
        Err("Uncertainty x data length does not match the x data length.".to_string())
    );
    let m = load(r#"{"x": [1, 2], "y": [3, 4], "x_err": [0.1, 0.2], "y_err": [0.3, 0.4]}"#).unwrap();
    let c = &m.saturation_curves[0];
    assert_eq!(c.xdat.len(), c.ydat.len());
    assert_eq!(c.xdat_unc.as_ref().unwrap().len(), 2);
    assert_eq!(c.ydat_unc.as_ref().unwrap().len(), 2);
    let m = load(r#"{"x": [], "y": []}"#).unwrap();
    assert!(m.saturation_curves[0].xdat.is_empty());
}
