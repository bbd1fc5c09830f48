use incubator::format_spec::{
    parse_custom, parse_regex, Argument, Count, ParseError, ParsedFormatSpec, Precision, Sign,
};

struct ValidCase {
    input: &'static str,
    expected: ParsedFormatSpec,
}

fn valid_cases() -> Vec<ValidCase> {
    vec![
        ValidCase {
            input: "",
            expected: ParsedFormatSpec {
                sign: None,
                width: None,
                precision: None,
            },
        },
        ValidCase {
            input: ">8.*",
            expected: ParsedFormatSpec {
                sign: None,
                width: Some(Count::Integer(8)),
                precision: Some(Precision::Asterisk),
            },
        },
        ValidCase {
            input: ">+8.*",
            expected: ParsedFormatSpec {
                sign: Some(Sign::Plus),
                width: Some(Count::Integer(8)),
                precision: Some(Precision::Asterisk),
            },
        },
        ValidCase {
            input: "-.1$x",
            expected: ParsedFormatSpec {
                sign: Some(Sign::Minus),
                width: None,
                precision: Some(Precision::Count(Count::Parameter(Argument::Position(1)))),
            },
        },
        ValidCase {
            input: "a^#043.8?",
            expected: ParsedFormatSpec {
                sign: None,
                width: Some(Count::Integer(43)),
                precision: Some(Precision::Count(Count::Integer(8))),
            },
        },
        ValidCase {
            input: "λ<+12.user$",
            expected: ParsedFormatSpec {
                sign: Some(Sign::Plus),
                width: Some(Count::Integer(12)),
                precision: Some(Precision::Count(Count::Parameter(Argument::Identifier(
                    "user".to_owned(),
                )))),
            },
        },
        ValidCase {
            input: "name$",
            expected: ParsedFormatSpec {
                sign: None,
                width: Some(Count::Parameter(Argument::Identifier("name".to_owned()))),
                precision: None,
            },
        },
        ValidCase {
            input: "8name",
            expected: ParsedFormatSpec {
                sign: None,
                width: Some(Count::Integer(8)),
                precision: None,
            },
        },
        ValidCase {
            input: "_tmp$.*",
            expected: ParsedFormatSpec {
                sign: None,
                width: Some(Count::Parameter(Argument::Identifier("_tmp".to_owned()))),
                precision: Some(Precision::Asterisk),
            },
        },
        ValidCase {
            input: "5.01$X?",
            expected: ParsedFormatSpec {
                sign: None,
                width: Some(Count::Integer(5)),
                precision: Some(Precision::Count(Count::Parameter(Argument::Position(1)))),
            },
        },
    ]
}

#[test]
fn parses_valid_format_specs_with_regex() {
    for case in valid_cases() {
        let parsed = parse_regex(case.input).unwrap();
        assert_eq!(parsed, case.expected, "input: {}", case.input);
    }
}

#[test]
fn parses_valid_format_specs_with_custom_parser() {
    for case in valid_cases() {
        let parsed = parse_custom(case.input).unwrap();
        assert_eq!(parsed, case.expected, "input: {}", case.input);
    }
}

#[test]
fn both_implementations_match_on_valid_inputs() {
    for case in valid_cases() {
        let regex = parse_regex(case.input).unwrap();
        let custom = parse_custom(case.input).unwrap();
        assert_eq!(regex, custom, "input: {}", case.input);
    }
}

#[test]
fn rejects_invalid_specs_in_both_implementations() {
    let too_large = format!("{}", "9".repeat(100));
    let too_large_precision = format!("1.{}", "9".repeat(100));

    let invalid_inputs = vec![
        ".",
        "++1",
        "-.",
        "_",
        "name$.",
        "name$._",
        "1$$",
        "1.$x",
        "a^#043.",
        &too_large,
        &too_large_precision,
    ];

    for input in invalid_inputs {
        assert!(parse_regex(input).is_err(), "regex should reject {input}");
        assert!(parse_custom(input).is_err(), "custom should reject {input}");
    }
}

#[test]
fn identifies_integer_overflow() {
    let huge = format!("{}", "9".repeat(100));

    let regex_error = parse_regex(&huge).unwrap_err();
    let custom_error = parse_custom(&huge).unwrap_err();

    assert!(matches!(
        regex_error,
        ParseError::InvalidInteger { field: "width", .. }
    ));
    assert!(matches!(
        custom_error,
        ParseError::InvalidInteger { field: "width", .. }
    ));
}
