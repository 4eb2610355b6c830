use loadgen::provision::{parse_provision_output, strip_newlines};

#[test]
fn zero_exit_yields_the_printed_value() {
    let r = parse_provision_output(true, "libsql://demo.example\n", String::new());
    assert_eq!(r, Ok(String::from("libsql://demo.example")));
}

#[test]
fn nonzero_exit_fails_with_stderr() {
    let r = parse_provision_output(false, "", String::from("no such database"));
    assert_eq!(r, Err(String::from("no such database")));
}

#[test]
fn line_breaks_are_removed_everywhere() {
    assert_eq!(strip_newlines("a\nb\n"), "ab");
    assert_eq!(strip_newlines("\n"), "");
    assert_eq!(strip_newlines("token"), "token");
}
