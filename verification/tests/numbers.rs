use rimsdb_scheme_submission::number::{
    data_string_to_vec_f64, fixed_point_text, is_number, json_number, parse_unsigned, parse_unsigned_with_plus,
    shown_text, split_data_string, unsigned_text,
};

fn std_accepts(text: &str) -> bool {
    text.parse::<f64>().is_ok()
}

#[test]
fn numbers_of_the_grammar_are_accepted() {
    for text in [
        "0", "1", "3.14", "-3.14", "+3.14", "2.5E10", "2.5e10", "2.5e-10", "2.5e+10", "5.", ".5",
        "0.5", "-.5", "+5.", "inf", "-inf", "+infinity", "Infinity", "INF", "NaN", "nan", "-NAN",
        "007", "1e0", "1E5", "0e0", "123456789012345678901234567890", "1e999", "0.000000001",
    ] {
        assert!(is_number(text), "{text}");
        assert!(std_accepts(text), "{text}");
    }
}

#[test]
fn texts_outside_the_grammar_are_rejected() {
    for text in [
        "", " ", "+", "-", ".", "e", "e5", "1e", "1e+", "1e-", "+.", "-.e1", " 1", "1 ", "1,5",
        "1_000", "0x10", "abc", "1.2.3", "--1", "+-1", "1e5.0", "1e5e5", "in", "infinit",
        "infinityy", "na", "nann", "1f", "１", "٣", "1\n", "\t1", "i", "n",
    ] {
        assert!(!is_number(text), "{text:?}");
        assert!(!std_accepts(text), "{text:?}");
    }
}

#[test]
fn grammar_agrees_with_std_on_short_texts() {
    let alphabet = ['0', '7', '.', 'e', 'E', '+', '-', 'i', 'n', 'f', 'a', ' ', 'x'];
    let mut texts: Vec<String> = vec![String::new()];
    let mut from = 0;
    for _ in 0..4 {
        let until = texts.len();
        for i in from..until {
            for c in alphabet {
                let mut t = texts[i].clone();
                t.push(c);
                texts.push(t);
            }
        }
        from = until;
    }
    assert_eq!(texts.len(), 1 + 13 + 169 + 2197 + 28561);
    for t in &texts {
        assert_eq!(is_number(t), std_accepts(t), "{t:?}");
    }
}

#[test]
fn lists_are_split_at_each_delimiter() {
    assert_eq!(split_data_string("1,2,3"), vec!["1", "2", "3"]);
    assert_eq!(split_data_string("1 2\t3\n4\r5:6-7"), vec!["1", "2", "3", "4", "5", "6", "7"]);
    assert_eq!(split_data_string(", ,1,, 2 ,"), vec!["1", "2"]);
    assert_eq!(split_data_string(""), Vec::<String>::new());
    assert_eq!(split_data_string(" ,:-\t\n\r"), Vec::<String>::new());
    assert_eq!(split_data_string("abc"), vec!["abc"]);
    assert_eq!(split_data_string("1;2"), vec!["1;2"]);
}

#[test]
fn a_minus_sign_parts_a_list() {
    assert_eq!(split_data_string("-1"), vec!["1"]);
    assert_eq!(split_data_string("1e-5"), vec!["1e", "5"]);
    assert_eq!(data_string_to_vec_f64("-1,-2", "x"), Ok(vec!["1".to_string(), "2".to_string()]));
    assert_eq!(
        data_string_to_vec_f64("1e-5", "x"),
        Err("None-numeric value found in x data.".to_string())
    );
}

#[test]
fn lists_of_numbers_are_read_as_written() {
    assert_eq!(
        data_string_to_vec_f64("1, 2.50 3e4", "x"),
        Ok(vec!["1".to_string(), "2.50".to_string(), "3e4".to_string()])
    );
    assert_eq!(data_string_to_vec_f64("", "y"), Ok(vec![]));
    assert_eq!(
        data_string_to_vec_f64("1,two,3", "y uncertainty"),
        Err("None-numeric value found in y uncertainty data.".to_string())
    );
}

#[test]
fn json_literals_have_the_digits_of_the_number() {
    let cases = [
        ("1", "1.0"),
        ("+1", "1.0"),
        ("-1", "-1.0"),
        ("007", "7.0"),
        ("000", "0.0"),
        ("0", "0.0"),
        ("5.", "5.0"),
        (".5", "0.5"),
        ("-.5", "-0.5"),
        ("1.50", "1.50"),
        ("1e3", "1.0e3"),
        ("1E+3", "1.0E+3"),
        ("2.5e-10", "2.5e-10"),
        ("00.25E07", "0.25E07"),
    ];
    for (text, literal) in cases {
        assert_eq!(json_number(text), Some(literal.to_string()), "{text}");
    }
    for text in ["inf", "-inf", "+Infinity", "nan", "NaN"] {
        assert_eq!(json_number(text), None, "{text}");
    }
}

#[test]
fn json_literals_are_read_by_serde_json_as_the_same_number() {
    for text in [
        "1", "+1", "-1", "007", "5.", ".5", "-.5", "1.50", "1e3", "1E+3", "2.5e-10", "0.1", "0.3",
        "123456789.123456789", "1e22", "1e23", "4.35", "9007199254740993", "0.000001",
        "179769313486231570000000000000000000000", "2.2250738585072014e-308", "5e-324", "-0.0",
    ] {
        let literal = json_number(text).unwrap();
        let value: serde_json::Value = serde_json::from_str(&literal).unwrap();
        let expected: f64 = text.parse().unwrap();
        assert_eq!(value.as_f64().unwrap().to_bits(), expected.to_bits(), "{text}");
        assert!(is_number(&literal));
    }
}

#[test]
fn unsigned_numbers_are_read_like_std() {
    for text in [
        "0", "7", "2014", "0002014", "18446744073709551615", "18446744073709551616",
        "99999999999999999999", "", "+", "+5", "-5", "5 ", " 5", "5.0", "1e3", "++5", "five",
    ] {
        assert_eq!(parse_unsigned_with_plus(text), text.parse::<u64>().ok(), "{text:?}");
        let plain = if text.starts_with('+') { None } else { text.parse::<u64>().ok() };
        assert_eq!(parse_unsigned(text), plain, "{text:?}");
    }
    assert_eq!(parse_unsigned("2014"), Some(2014));
    assert_eq!(parse_unsigned_with_plus("+2014"), Some(2014));
}

#[test]
fn unsigned_numbers_are_written_in_base_ten() {
    for n in [0u64, 1, 9, 10, 11, 99, 100, 2014, 1234567890, u64::MAX] {
        assert_eq!(unsigned_text(n), n.to_string());
        assert_eq!(parse_unsigned(&unsigned_text(n)), Some(n));
    }
}

#[test]
fn numbers_are_shown_without_a_negative_exponent() {
    let cases = [
        ("1e-5", "0.00001"),
        ("1e-7", "0.0000001"),
        ("12.5e-3", "0.0125"),
        ("1250e-2", "12.50"),
        ("1250.75E-2", "12.5075"),
        ("1250e-4", "0.1250"),
        ("1250e-6", "0.001250"),
        (".5e-1", "0.05"),
        ("5.e-1", "0.5"),
        ("1e-0", "1."),
        ("+1.5E-2", "+0.015"),
        ("-1e-2", "-0.01"),
        ("2.2250738585072014e-308", &format!("0.{}22250738585072014", "0".repeat(307))),
        ("5e-324", &format!("0.{}5", "0".repeat(323))),
        ("1e-1000", &format!("0.{}1", "0".repeat(999))),
    ];
    for (text, shown) in cases {
        assert_eq!(shown_text(text), shown, "{text}");
        assert!(is_number(&shown_text(text)));
        assert_eq!(
            shown_text(text).parse::<f64>().unwrap().to_bits(),
            text.parse::<f64>().unwrap().to_bits(),
            "{text}"
        );
        if !text.starts_with('-') {
            assert_eq!(split_data_string(&shown_text(text)), vec![shown_text(text)]);
        }
    }
}

#[test]
fn other_texts_are_shown_as_they_stand() {
    for text in [
        "1", "1.5", "1e5", "1e+5", "1E5", "+7", "-7", "inf", "nan", "", "abc", "1e-", "e-5",
        "1e-1001", "1e-99999999999999999999999999", "1 e-5",
    ] {
        assert_eq!(shown_text(text), text);
    }
}

#[test]
fn whole_numbers_are_written_with_a_point() {
    assert_eq!(fixed_point_text(12345, 2), "123.45");
    assert_eq!(fixed_point_text(10967877174307, 8), "109678.77174307");
    assert_eq!(fixed_point_text(529220, 1), "52922.0");
    assert_eq!(fixed_point_text(12345, 0), "12345.");
    assert_eq!(fixed_point_text(12345, 4), "1.2345");
    assert_eq!(fixed_point_text(12345, 5), "0.12345");
    assert_eq!(fixed_point_text(12345, 7), "0.0012345");
    assert_eq!(fixed_point_text(0, 0), "0.");
    assert_eq!(fixed_point_text(0, 1), "0.0");
    for (digits, places) in [(12345u64, 2usize), (12345, 5), (12345, 7), (7, 3), (0, 1)] {
        let text = fixed_point_text(digits, places);
        assert!(is_number(&text));
        let expected = digits as f64 / 10f64.powi(places as i32);
        assert!((text.parse::<f64>().unwrap() - expected).abs() <= expected * 1e-15);
    }
}
