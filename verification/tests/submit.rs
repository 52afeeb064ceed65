use rimsdb_scheme_submission::elements::Elements;
use rimsdb_scheme_submission::submit::{create_email_link, create_gh_issue, default_file_name};

#[test]
fn issue_link_holds_label_title_and_body() {
    assert_eq!(
        create_gh_issue("{\n  \"notes\": \"\"\n}", &Elements::Ti),
        "https://github.com/RIMS-Code/rims-code.github.io/issues/new?labels=scheme_submission&title=Scheme submission: Ti&body={\n  \"notes\": \"\"\n}"
    );
    assert_eq!(
        create_gh_issue("", &Elements::H),
        "https://github.com/RIMS-Code/rims-code.github.io/issues/new?labels=scheme_submission&title=Scheme submission: H&body="
    );
}

#[test]
fn email_link_has_no_line_feed() {
    let link = create_email_link("{\n  \"notes\": \"a\\nb\"\n}\n", &Elements::Fe);
    assert_eq!(
        link,
        "mailto:reto@galactic-forensics.space?subject=Scheme submission: Fe&body=%0D%0A%0D%0A======= SCHEME FILE: DO NOT EDIT BELOW THIS LINE =======%0D%0A%0D%0A{%0D%0A  \"notes\": \"a\\nb\"%0D%0A}%0D%0A"
    );
    assert!(!link.contains('\n'));
}

#[test]
fn email_link_of_an_empty_body_ends_with_the_banner() {
    assert_eq!(
        create_email_link("", &Elements::Hs),
        "mailto:reto@galactic-forensics.space?subject=Scheme submission: Hs&body=%0D%0A%0D%0A======= SCHEME FILE: DO NOT EDIT BELOW THIS LINE =======%0D%0A%0D%0A"
    );
}

#[test]
fn email_link_keeps_everything_but_line_feeds() {
    let body = "a\r\nb%0D%0A c&d=e\tf";
    let link = create_email_link(body, &Elements::U);
    assert!(link.ends_with("=======%0D%0A%0D%0Aa\r%0D%0Ab%0D%0A c&d=e\tf"));
    let old = "\n\n======= SCHEME FILE: DO NOT EDIT BELOW THIS LINE =======\n\n".replace('\n', "%0D%0A");
    assert_eq!(
        link,
        format!(
            "mailto:{}?subject={}&body={}{}",
            "reto@galactic-forensics.space",
            "Scheme submission: U",
            old,
            body.replace('\n', "%0D%0A")
        )
    );
}

#[test]
fn file_name_is_the_symbol_with_json() {
    assert_eq!(default_file_name(&Elements::Ti), "Ti.json");
    assert_eq!(default_file_name(&Elements::U), "U.json");
}
