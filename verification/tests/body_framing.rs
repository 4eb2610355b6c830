use loadgen::json::statements_body;

#[test]
fn empty_batch_frames_an_empty_array() {
    let body = statements_body(&Vec::new());
    assert_eq!(body, "{\"statements\":[]}");
}

#[test]
fn statements_travel_in_order() {
    let stmts = vec![
        String::from("INSERT INTO t VALUES (1)"),
        String::from("INSERT INTO t VALUES (2)"),
    ];
    let body = statements_body(&stmts);
    assert_eq!(
        body,
        "{\"statements\":[\"INSERT INTO t VALUES (1)\",\"INSERT INTO t VALUES (2)\"]}"
    );
}

#[test]
fn quotes_and_backslashes_are_escaped() {
    let stmts = vec![String::from("say \"hi\""), String::from("a\\b")];
    let body = statements_body(&stmts);
    assert_eq!(body, "{\"statements\":[\"say \\\"hi\\\"\",\"a\\\\b\"]}");
}

#[test]
fn control_characters_are_hex_escaped() {
    let stmts = vec![String::from("a\tb"), String::from("c\nd"), String::from("\u{1f}")];
    let body = statements_body(&stmts);
    assert_eq!(
        body,
        "{\"statements\":[\"a\\u0009b\",\"c\\u000ad\",\"\\u001f\"]}"
    );
}
