use anyhow::{has_prefix, indent, render_debug, to_decimal, trim_end, Failure, Indented, MessageError};

#[test]
fn one_digit() {
    let input = "verify\nthis";
    let expected = "    2: verify\n       this";
    let mut output = String::new();

    Indented {
        inner: &mut output,
        number: Some(2),
        started: false,
    }
    .write_str(input)
    .unwrap();

    assert_eq!(expected, output);
}

#[test]
fn two_digits() {
    let input = "verify\nthis";
    let expected = "   12: verify\n       this";
    let mut output = String::new();

    Indented {
        inner: &mut output,
        number: Some(12),
        started: false,
    }
    .write_str(input)
    .unwrap();

    assert_eq!(expected, output);
}

#[test]
fn no_digits() {
    let input = "verify\nthis";
    let expected = "    verify\n    this";
    let mut output = String::new();

    Indented {
        inner: &mut output,
        number: None,
        started: false,
    }
    .write_str(input)
    .unwrap();

    assert_eq!(expected, output);
}

#[test]
fn indented_already_started() {
    let mut output = String::from("x");
    let mut w = Indented { inner: &mut output, number: Some(3), started: true };
    w.write_str("a\nb").unwrap();
    assert!(w.started);
    assert_eq!(output, "xa\n       b");
}

#[test]
fn indent_wide_number() {
    assert_eq!(indent("x", Some(123456), false), "123456: x");
    assert_eq!(indent("", None, false), "    ");
    assert_eq!(indent("a\n\nb", None, false), "    a\n    \n    b");
}

#[test]
fn decimal_digits() {
    assert_eq!(to_decimal(0), "0");
    assert_eq!(to_decimal(7), "7");
    assert_eq!(to_decimal(1907), "1907");
    assert_eq!(to_decimal(usize::MAX), usize::MAX.to_string());
}

#[test]
fn trims_trailing_white_space() {
    assert_eq!(trim_end("abc \t\n  "), "abc");
    assert_eq!(trim_end("  abc"), "  abc");
    assert_eq!(trim_end("   "), "");
    assert_eq!(trim_end(""), "");
}

#[test]
fn prefix_check() {
    assert!(has_prefix("stack backtrace:\n", "stack backtrace:"));
    assert!(!has_prefix("Stack backtrace:", "stack backtrace:"));
    assert!(!has_prefix("stack", "stack backtrace:"));
    assert!(has_prefix("abc", ""));
}

fn message(text: &str) -> Failure {
    Failure::Message(MessageError { display: text.to_string(), debug: format!("{:?}", text) })
}

#[test]
fn debug_trace_heading_capitalised() {
    let head = message("oops");
    let r = render_debug(&head, Some("stack backtrace:\n   0: main\n\n".to_string()));
    assert_eq!(r, "oops\n\nStack backtrace:\n   0: main");
}

#[test]
fn debug_trace_heading_added() {
    let head = message("oops");
    let r = render_debug(&head, Some("   0: main\n".to_string()));
    assert_eq!(r, "oops\n\nStack backtrace:\n   0: main");
}

#[test]
fn debug_without_trace_or_cause() {
    let head = message("oops");
    assert_eq!(render_debug(&head, None), "oops");
}
