use loadgen::Outcome;
use loadgen::runner::{Runner, SingleConn, SINGLE_CONN_INSERTS};

#[test]
fn every_spawned_task_is_observed_exactly_once() {
    let mut r = Runner::new(
        String::from("http://localhost:8080"),
        String::new(),
        SingleConn {},
    );
    assert!(r.is_complete());
    for _ in 0..5 {
        r.task_spawned();
    }
    assert!(!r.is_complete());
    assert_eq!(r.pending(), 5);
    // a random subset fails; every task still contributes one outcome
    r.record_outcome(Outcome::Success);
    r.record_outcome(Outcome::Failure(String::from("connection refused")));
    r.record_outcome(Outcome::Success);
    r.record_outcome(Outcome::Failure(String::from("timeout")));
    assert!(!r.is_complete());
    assert_eq!(r.pending(), 1);
    r.record_outcome(Outcome::Success);
    assert!(r.is_complete());
    assert_eq!(r.observed_count(), 5);
    assert_eq!(r.failure_count(), 2);
}

#[test]
fn scenario_c_one_failure_among_ten() {
    let mut r = Runner::new(String::from("url"), String::from("token"), SingleConn {});
    for _ in 0..10 {
        r.task_spawned();
    }
    for i in 0..10 {
        if i == 3 {
            r.record_outcome(Outcome::Failure(String::from("execute_batch failed")));
        } else {
            r.record_outcome(Outcome::Success);
        }
        // one task's failure never blocks the others' observations
        assert_eq!(r.observed_count(), i + 1);
    }
    assert!(r.is_complete());
    assert_eq!(r.observed_count(), 10);
    assert_eq!(r.failure_count(), 1);
}

#[test]
fn runner_keeps_credentials_for_tasks() {
    let r = Runner::new(String::from("http://db"), String::from("tok"), SingleConn {});
    assert_eq!(r.url(), "http://db");
    assert_eq!(r.token(), "tok");
}

#[test]
fn single_conn_plans_one_bounded_task() {
    let mut r = Runner::new(String::from("url"), String::new(), SingleConn {});
    let plans = r.plan_job().expect("single-conn setup never fails at planning");
    assert_eq!(plans.len(), 1);
    assert_eq!(plans[0].setup, vec!["CREATE TABLE IF NOT EXISTS foo (x BLOB)"]);
    assert_eq!(plans[0].repeat, "INSERT INTO foo values (randomblob(6000))");
    assert_eq!(plans[0].repeat_count, SINGLE_CONN_INSERTS);
    assert_eq!(plans[0].repeat_count, 50000);
}
