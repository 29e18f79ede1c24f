use rollup_driver::is_numeric;

#[test]
fn numeric_texts_are_recognized() {
    for s in ["42", "-3.5", "+.5", "42.", "1.e5", "1e5", "1E-5", "2e+10", "0", "007", ".25"] {
        assert!(is_numeric(s), "expected numeric: {}", s);
    }
}

#[test]
fn keywords_are_recognized_case_insensitively() {
    for s in ["inf", "Inf", "INF", "-inf", "+infinity", "Infinity", "nan", "NaN", "-NAN"] {
        assert!(is_numeric(s), "expected numeric: {}", s);
    }
}

#[test]
fn non_numeric_texts_are_rejected() {
    for s in [
        "", "abc", "4.2.1", "1e", "1e+", ".", "+", "-", "+.", "e5", " 42", "42 ", "0x10",
        "infinityy", "nan0", "in", "1.5e", "--5", "hello world",
    ] {
        assert!(!is_numeric(s), "expected non-numeric: {}", s);
    }
}

#[test]
fn recognizer_matches_float_parsing() {
    for s in [
        "42", "-3.5", "+.5", "42.", "1.e5", "1e5", "1E-5", "2e+10", "0", "007", ".25", "inf",
        "Inf", "-inf", "+infinity", "NaN", "", "abc", "4.2.1", "1e", "1e+", ".", "+", "-", "+.",
        "e5", " 42", "42 ", "0x10", "infinityy", "nan0", "in", "1.5e", "--5", "12e34", "9.",
        ".e5", "+-1", "1.2E+03", "hello",
    ] {
        assert_eq!(is_numeric(s), s.parse::<f64>().is_ok(), "text: {:?}", s);
    }
}
