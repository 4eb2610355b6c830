use loadgen::Outcome;
use loadgen::task::{FanoutTask, TaskAction};

fn stmts(n: usize) -> Vec<String> {
    (0..n).map(|i| format!("INSERT INTO t VALUES ({})", i)).collect()
}

/// Drives a task to completion, answering every request with `status`/`body`,
/// and returns the sizes of the batches sent.
fn drive(task: &mut FanoutTask, create_status: u16, execute_status: u16) -> Vec<usize> {
    let mut sent = Vec::new();
    loop {
        match task.step() {
            TaskAction::SendCreate => {
                task.on_response(create_status, String::from("create body"));
            }
            TaskAction::SendBatch(batch) => {
                sent.push(batch.len());
                task.on_response(execute_status, String::from("execute body"));
            }
            TaskAction::Finished => return sent,
        }
    }
}

#[test]
fn scenario_a_three_batches_after_create() {
    let original = stmts(120);
    let mut task = FanoutTask::new(String::from("ns-1"), original, 50);
    assert_eq!(task.target(), "ns-1");
    let sent = drive(&mut task, 200, 200);
    assert_eq!(sent, vec![50, 50, 20]);
    assert!(matches!(task.outcome(), Some(Outcome::Success)));
}

#[test]
fn scenario_b_already_exists_counts_as_created() {
    let mut task = FanoutTask::new(String::from("ns-1"), stmts(3), 2);
    // creation answered 400: the target already exists, execution proceeds
    let sent = drive(&mut task, 400, 200);
    assert_eq!(sent, vec![2, 1]);
    assert!(matches!(task.outcome(), Some(Outcome::Success)));
}

#[test]
fn scenario_b_failed_create_sends_no_batch() {
    let mut task = FanoutTask::new(String::from("ns-1"), stmts(3), 2);
    let sent = drive(&mut task, 500, 200);
    assert_eq!(sent, Vec::<usize>::new());
    match task.outcome() {
        Some(Outcome::Failure(d)) => assert_eq!(d, "create body"),
        _ => panic!("a 500 creation response must fail the task"),
    }
}

#[test]
fn failed_execution_ends_the_task_with_the_body() {
    let mut task = FanoutTask::new(String::from("ns-1"), stmts(5), 2);
    let sent = drive(&mut task, 200, 503);
    // the first batch went out; its failure ended the task
    assert_eq!(sent, vec![2]);
    match task.outcome() {
        Some(Outcome::Failure(d)) => assert_eq!(d, "execute body"),
        _ => panic!("a 503 execution response must fail the task"),
    }
}

#[test]
fn empty_queue_succeeds_after_create() {
    let mut task = FanoutTask::new(String::from("ns-1"), Vec::new(), 50);
    let sent = drive(&mut task, 200, 200);
    assert_eq!(sent, Vec::<usize>::new());
    assert!(matches!(task.outcome(), Some(Outcome::Success)));
}
