use euler_core::diagnostics::extract_errors;

#[test]
fn two_independent_blocks() {
    let log = "! Undefined control sequence.\nl.5 \\foo\n! Missing $ inserted.\nl.9 ...";
    let errors = extract_errors(log);
    assert_eq!(
        errors,
        vec![
            "! Undefined control sequence.".to_string(),
            "! Missing $ inserted.".to_string(),
        ]
    );
}

#[test]
fn consecutive_marker_lines_stay_separate() {
    let log = "! first error\n! second error\n";
    let errors = extract_errors(log);
    assert_eq!(
        errors,
        vec!["! first error".to_string(), "! second error".to_string()]
    );
}

#[test]
fn open_record_at_end_of_input_is_kept_trimmed() {
    let log = "noise\n! Oops \nmore detail   ";
    let errors = extract_errors(log);
    assert_eq!(errors, vec!["! Oops \nmore detail".to_string()]);
}

#[test]
fn no_marker_line_yields_no_records() {
    let log = "This is pdfTeX\nOutput written on doc.pdf (1 page).\n";
    let errors = extract_errors(log);
    assert!(errors.is_empty());
}

#[test]
fn extraction_is_a_pure_function_of_the_log() {
    let log = "! Undefined control sequence.\nl.5 \\foo\nnoise\n! Another.\n";
    let first = extract_errors(log);
    let second = extract_errors(log);
    assert_eq!(first, second);
}

#[test]
fn blank_line_closes_a_record() {
    let log = "! Undefined control sequence.\n\\foo is unknown\n\nunrelated noise";
    let errors = extract_errors(log);
    assert_eq!(
        errors,
        vec!["! Undefined control sequence.\n\\foo is unknown".to_string()]
    );
}

#[test]
fn indented_line_number_marker_closes_a_record() {
    let log = "! Missing $ inserted.\n   l.42 x^2\nrest";
    let errors = extract_errors(log);
    assert_eq!(errors, vec!["! Missing $ inserted.".to_string()]);
}

#[test]
fn carriage_returns_are_handled_as_line_endings() {
    let log = "! Broken.\r\n\r\nnoise\r\n";
    let errors = extract_errors(log);
    assert_eq!(errors, vec!["! Broken.".to_string()]);
}

#[test]
fn empty_log_yields_no_records() {
    let errors = extract_errors("");
    assert!(errors.is_empty());
}

#[test]
fn continuation_marker_without_open_record_is_ignored() {
    let log = "l.5 stray\nnoise\n";
    let errors = extract_errors(log);
    assert!(errors.is_empty());
}

#[test]
fn records_keep_log_order() {
    let log = "! A\n\n! B\n\n! C\n";
    let errors = extract_errors(log);
    assert_eq!(
        errors,
        vec!["! A".to_string(), "! B".to_string(), "! C".to_string()]
    );
}

#[test]
fn whitespace_only_continuation_closes_a_record() {
    let log = "! A\n   \t\nmore";
    let errors = extract_errors(log);
    assert_eq!(errors, vec!["! A".to_string()]);
}
