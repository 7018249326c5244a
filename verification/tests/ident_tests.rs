use simpledot::error::{ErrorKind, ParseFailure};
use simpledot::ident::{
    ident_parser, num_ident_parser, quote_string_ident_parser, string_ident_parser,
};

fn assert_parses_fully(
    f: impl Fn(&str) -> Result<(String, String), ParseFailure>,
    s: &str,
    expect: &str,
) {
    match f(s) {
        Ok((rest, v)) => {
            assert_eq!(rest, "", "expected '{}' to be consumed fully", s);
            assert_eq!(v, expect);
        }
        Err(e) => panic!("expected successful parse of '{}', got {:?}", s, e),
    }
}

fn assert_fails_with(
    f: impl Fn(&str) -> Result<(String, String), ParseFailure>,
    s: &str,
    kind: ErrorKind,
) {
    match f(s) {
        Ok(_) => panic!("expected to fail parsing of '{}', but succeeded", s),
        Err(e) => assert!(
            e.entries.iter().any(|t| t.kind == kind),
            "no trace entry of kind {:?} in {:?}",
            kind,
            e
        ),
    }
}

fn assert_parses_with_rest(
    f: impl Fn(&str) -> Result<(String, String), ParseFailure>,
    s: &str,
    rest: &str,
    expect: &str,
) {
    match f(s) {
        Ok((r, v)) => {
            assert_eq!(r, rest);
            assert_eq!(v, expect);
        }
        Err(e) => panic!("expected successful parse of '{}', got {:?}", s, e),
    }
}

fn valid_string_idents() -> Vec<&'static str> {
    vec![
        "Howdy_there",
        "this_is_valid",
        "_so_is_this",
        "foo",
        "an_actual_typical_value",
    ]
}

fn invalid_string_idents() -> Vec<(&'static str, ErrorKind)> {
    vec![("5cantstartwithnumber", ErrorKind::Tag)]
}

fn expected_rest_string_idents() -> Vec<(&'static str, (&'static str, &'static str))> {
    vec![("no-kebab-case", ("-kebab-case", "no"))]
}

fn valid_quoted_string_idents() -> Vec<(&'static str, &'static str)> {
    vec![
        (r#""foo""#, "foo"),
        (r#""foo\"bar""#, r#"foo"bar"#),
        (r#""this is a longer string""#, "this is a longer string"),
        (
            r#""lots\"of\"extra\"escaped\"quotes""#,
            r#"lots"of"extra"escaped"quotes"#,
        ),
        (r#""""#, ""),
    ]
}

#[test]
fn string_ident() {
    for s in valid_string_idents() {
        assert_parses_fully(string_ident_parser, s, s);
    }
    for (s, kind) in invalid_string_idents() {
        assert_fails_with(string_ident_parser, s, kind);
    }
    for (s, (rest, v)) in expected_rest_string_idents() {
        assert_parses_with_rest(string_ident_parser, s, rest, v);
    }
}

#[test]
fn quoted_ident() {
    for (i, o) in valid_quoted_string_idents() {
        assert_parses_fully(quote_string_ident_parser, i, o);
    }
    println!(
        "testing: {:?}",
        quote_string_ident_parser(r#""missing ending quote"#)
    );
}

#[test]
fn any_ident() {
    for s in valid_string_idents() {
        assert_parses_fully(ident_parser, s, s);
    }
    for (s, o) in valid_quoted_string_idents() {
        assert_parses_fully(ident_parser, s, o);
    }
    for (s, kind) in invalid_string_idents() {
        assert_fails_with(ident_parser, s, kind);
    }
    for (s, (rest, v)) in expected_rest_string_idents() {
        assert_parses_with_rest(ident_parser, s, rest, v);
    }
}

#[test]
fn unterminated_quoted_string_fails() {
    assert!(quote_string_ident_parser(r#""missing ending quote"#).is_err());
    assert!(ident_parser(r#""missing ending quote"#).is_err());
}

#[test]
fn numeral_idents() {
    assert_parses_fully(num_ident_parser, "1.5", "1.5");
    assert_parses_fully(num_ident_parser, "-2.", "-2.");
    assert_parses_fully(num_ident_parser, "10.25", "10.25");
    // an integer without a decimal point is not a numeral
    assert!(num_ident_parser("5").is_err());
    // but a bare word starting with a letter is not a numeral either
    assert!(num_ident_parser("foo").is_err());
    // through the combined rule, a numeral is accepted as an identifier
    assert_parses_fully(ident_parser, "-3.14", "-3.14");
}
