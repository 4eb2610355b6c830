use loadgen::Outcome;
use loadgen::client::{ensure_target_outcome, execute_batch_outcome};

#[test]
fn create_success_statuses() {
    assert!(ensure_target_outcome(200, String::new()).is_success());
    // already exists: idempotent create, a repeated call still succeeds
    assert!(ensure_target_outcome(400, String::from("already exists")).is_success());
}

#[test]
fn create_failure_carries_body() {
    match ensure_target_outcome(500, String::from("boom")) {
        Outcome::Failure(d) => assert_eq!(d, "boom"),
        Outcome::Success => panic!("a 500 creation response must fail"),
    }
    assert!(!ensure_target_outcome(503, String::new()).is_success());
    assert!(!ensure_target_outcome(201, String::new()).is_success());
}

#[test]
fn execute_success_is_only_200() {
    assert!(execute_batch_outcome(200, String::new()).is_success());
    assert!(!execute_batch_outcome(400, String::new()).is_success());
    match execute_batch_outcome(502, String::from("bad gateway")) {
        Outcome::Failure(d) => assert_eq!(d, "bad gateway"),
        Outcome::Success => panic!("a 502 execution response must fail"),
    }
}
