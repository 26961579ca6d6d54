use greeter::digits::decimal_string;
use greeter::report::calculate;
use greeter::report::output_lines;

#[test]
fn calculate_adds_fixed_literals() {
    assert_eq!(calculate(10, 5), 15);
}

#[test]
fn calculate_adds_generic_values() {
    assert_eq!(calculate(0, 0), 0);
    assert_eq!(calculate(-3, 4), 1);
    assert_eq!(calculate(-7, -8), -15);
    assert_eq!(calculate(i32::MAX - 1, 1), i32::MAX);
    assert_eq!(calculate(i32::MIN + 1, -1), i32::MIN);
}

#[test]
fn decimal_renders_small_numbers() {
    assert_eq!(decimal_string(0), "0");
    assert_eq!(decimal_string(7), "7");
    assert_eq!(decimal_string(15), "15");
    assert_eq!(decimal_string(100), "100");
}

#[test]
fn decimal_renders_large_numbers() {
    assert_eq!(decimal_string(1234567890), "1234567890");
    assert_eq!(decimal_string(u64::MAX), "18446744073709551615");
}

#[test]
fn report_has_six_lines_in_fixed_order() {
    let lines = output_lines(42, Some(String::from("/tmp")));
    assert_eq!(lines.len(), 6);
    assert_eq!(lines[0], "Hello from Rust!");
    assert_eq!(lines[1], "==============================");
    assert_eq!(lines[2], "Unix timestamp: 42");
    assert_eq!(lines[3], "Working directory: /tmp");
    assert_eq!(lines[4], "10 + 5 = 15");
    assert_eq!(lines[5], "Rust program finished successfully!");
}

#[test]
fn separator_is_thirty_characters() {
    let lines = output_lines(0, None);
    assert_eq!(lines[1].len(), 30);
    assert!(lines[1].chars().all(|c| c == '='));
}

#[test]
fn computation_line_is_exact() {
    let lines = output_lines(981273, None);
    assert_eq!(lines[4], "10 + 5 = 15");
}

#[test]
fn workdir_failure_uses_fallback() {
    let lines = output_lines(7, None);
    assert_eq!(lines[3], "Working directory: unknown");
    assert_eq!(lines.len(), 6);
}

#[test]
fn timestamp_line_is_decimal() {
    let lines = output_lines(0, None);
    assert_eq!(lines[2], "Unix timestamp: 0");
    let lines = output_lines(1728000000, None);
    assert_eq!(lines[2], "Unix timestamp: 1728000000");
}

#[test]
fn two_runs_differ_only_in_timestamp() {
    let wd = Some(String::from("/home/user"));
    let first = output_lines(1000, wd.clone());
    let second = output_lines(1001, wd);
    assert_eq!(first.len(), second.len());
    for i in 0..first.len() {
        if i == 2 {
            assert_ne!(first[i], second[i]);
        } else {
            assert_eq!(first[i], second[i]);
        }
    }
}
