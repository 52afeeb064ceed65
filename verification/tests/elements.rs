use rimsdb_scheme_submission::elements::Elements;
use rimsdb_scheme_submission::model::is_doi;

#[test]
fn test_parse_element() {
    assert_eq!(Elements::from_str("H").unwrap(), Elements::H);
    assert_eq!(Elements::from_str("He").unwrap(), Elements::He);
    assert_eq!(Elements::from_str("Li").unwrap(), Elements::Li);
    assert_eq!(Elements::from_str("Be").unwrap(), Elements::Be);
    assert_eq!(Elements::from_str("B").unwrap(), Elements::B);
    assert_eq!(Elements::from_str("C").unwrap(), Elements::C);
    assert_eq!(Elements::from_str("N").unwrap(), Elements::N);
    assert_eq!(Elements::from_str("O").unwrap(), Elements::O);
    assert_eq!(Elements::from_str("F").unwrap(), Elements::F);
    assert_eq!(Elements::from_str("Ne").unwrap(), Elements::Ne);
    assert_eq!(Elements::from_str("Na").unwrap(), Elements::Na);
    assert_eq!(Elements::from_str("Mg").unwrap(), Elements::Mg);
    assert_eq!(Elements::from_str("Al").unwrap(), Elements::Al);
    assert_eq!(Elements::from_str("Si").unwrap(), Elements::Si);
    assert_eq!(Elements::from_str("P").unwrap(), Elements::P);
    assert_eq!(Elements::from_str("S").unwrap(), Elements::S);
    assert_eq!(Elements::from_str("Cl").unwrap(), Elements::Cl);
    assert_eq!(Elements::from_str("Ar").unwrap(), Elements::Ar);
    assert_eq!(Elements::from_str("K").unwrap(), Elements::K);
    assert_eq!(Elements::from_str("Ca").unwrap(), Elements::Ca);
    assert_eq!(Elements::from_str("Sc").unwrap(), Elements::Sc);
    assert_eq!(Elements::from_str("Ti").unwrap(), Elements::Ti);
    assert_eq!(Elements::from_str("V").unwrap(), Elements::V);
    assert_eq!(Elements::from_str("Cr").unwrap(), Elements::Cr);
    assert_eq!(Elements::from_str("Mn").unwrap(), Elements::Mn);
    assert_eq!(Elements::from_str("Fe").unwrap(), Elements::Fe);
    assert_eq!(Elements::from_str("Co").unwrap(), Elements::Co);
    assert_eq!(Elements::from_str("Ni").unwrap(), Elements::Ni);
    assert_eq!(Elements::from_str("Cu").unwrap(), Elements::Cu);
}

#[test]
fn test_is_doi() {
    let doi_good = "10.500/123456789";
    assert!(is_doi(doi_good));
    let doi_bad = "https://doi.org/10.500/123456789";
    assert!(!is_doi(doi_bad));
}

#[test]
fn is_doi_needs_one_slash() {
    assert!(!is_doi("no-slash-here"));
    assert!(!is_doi(""));
    assert!(is_doi("/"));
    assert!(!is_doi("a/b/c"));
}

#[test]
fn every_symbol_reads_back() {
    let all = Elements::all();
    assert_eq!(all.len(), 108);
    for (i, e) in all.iter().enumerate() {
        assert_eq!(e.atomic_number() as usize, i + 1);
        assert_eq!(Elements::from_str(e.symbol()).unwrap(), *e);
        assert_eq!(format!("{:?}", e), e.symbol());
        assert_eq!(Elements::from_atomic_number(e.atomic_number()), Some(*e));
    }
    assert_eq!(all[0], Elements::H);
    assert_eq!(all[107], Elements::Hs);
    assert_eq!(Elements::from_atomic_number(0), None);
    assert_eq!(Elements::from_atomic_number(109), None);
}

#[test]
fn unknown_symbol_is_rejected() {
    assert_eq!(Elements::from_str("Xx"), Err("Element Xx not found.".to_string()));
    assert_eq!(Elements::from_str("he"), Err("Element he not found.".to_string()));
    assert_eq!(Elements::from_str(""), Err("Element  not found.".to_string()));
    assert_eq!(Elements::from_str(" H"), Err("Element  H not found.".to_string()));
}

#[test]
fn ionisation_potentials_are_the_published_values() {
    assert_eq!(Elements::H.ip(), "109678.77174307");
    assert_eq!(Elements::H.ip().parse::<f64>().unwrap(), 109678.77174307);
    assert_eq!(Elements::He.ip().parse::<f64>().unwrap(), 198310.66637);
    assert_eq!(Elements::Cs.ip().parse::<f64>().unwrap(), 31406.4677325);
    assert_eq!(Elements::Sc.ip().parse::<f64>().unwrap(), 52922.0);
    assert_eq!(Elements::U.ip().parse::<f64>().unwrap(), 49958.4);
    assert_eq!(Elements::Hs.ip().parse::<f64>().unwrap(), 61000.0);
    for e in Elements::all() {
        let ip = e.ip().parse::<f64>().unwrap();
        assert!(ip > 30000.0 && ip < 200000.0);
        assert!(rimsdb_scheme_submission::number::is_number(&e.ip()));
    }
}

#[test]
fn symbols_are_parsed_as_text() {
    assert_eq!("He".parse::<Elements>(), Ok(Elements::He));
    assert_eq!("U".parse::<Elements>(), Ok(Elements::U));
    assert_eq!("Zz".parse::<Elements>(), Err("Element Zz not found.".to_string()));
}

#[test]
fn every_ionisation_potential_has_the_published_digits() {
    let published = [
        "109678.77174307", "198310.66637", "43487.1142", "75192.64",
        "66928.04", "90820.348", "117225.7", "109837.02",
        "140524.5", "173929.75", "41449.451", "61671.05",
        "48278.48", "65747.76", "84580.83", "83559.1",
        "104591.01", "127109.842", "35009.814", "49305.924",
        "52922.0", "55072.5", "54411.67", "54575.6",
        "59959.56", "63737.704", "63564.6", "61619.77",
        "62317.46", "75769.31", "48387.634", "63713.24",
        "78950.0", "78658.15", "95284.8", "112914.433",
        "33690.81", "45932.2036", "50145.6", "53507.832",
        "54513.8", "57204.3", "57421.68", "59366.4",
        "60160.1", "67241.14", "61106.45", "72540.05",
        "46670.107", "59232.69", "69431.34", "72669.006",
        "84294.9", "97833.787", "31406.4677325", "42034.91",
        "44981.0", "44672.0", "44120.0", "44562.0",
        "45020.8", "45519.69", "45734.74", "49601.45",
        "47295.0", "47901.76", "48567.0", "49262.0",
        "49880.57", "50443.2", "43762.6", "55047.9",
        "60891.4", "63427.7", "63181.6", "68058.9",
        "72323.9", "72257.8", "74409.11", "84184.15",
        "49266.66", "59819.558", "58761.65", "67896.31",
        "75150.8", "86692.5", "32848.872", "42573.36",
        "43394.52", "50867.0", "49034.0", "49958.4",
        "50535.0", "48601.0", "48182.0", "48330.68",
        "49989.0", "50666.76", "51364.58", "52422.5",
        "53230.0", "53444.0", "40005.0", "48580.0",
        "55000.0", "63000.0", "62000.0", "61000.0",
    ];
    let all = Elements::all();
    assert_eq!(all.len(), published.len());
    for (e, text) in all.iter().zip(published) {
        assert_eq!(e.ip(), text, "{e:?}");
    }
}

#[test]
fn ionisation_potentials_lie_between_caesium_and_helium() {
    let value = |e: &Elements| e.ip().parse::<f64>().unwrap();
    assert_eq!(value(&Elements::Cs), 31406.4677325);
    assert_eq!(value(&Elements::He), 198310.66637);
    for e in Elements::all() {
        assert!(value(&e).is_finite());
        assert!(value(&e) >= 31406.4677325 && value(&e) <= 198310.66637);
        assert_eq!(value(&e) == 31406.4677325, e == Elements::Cs);
        assert_eq!(value(&e) == 198310.66637, e == Elements::He);
        assert_eq!(e.ip(), e.ip());
    }
}
