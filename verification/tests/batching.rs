use loadgen::batcher::Batcher;

fn stmts(n: usize) -> Vec<String> {
    (0..n).map(|i| format!("INSERT INTO t VALUES ({})", i)).collect()
}

#[test]
fn empty_queue_yields_no_batch() {
    let mut b = Batcher::new(Vec::new(), 50);
    assert!(b.next_batch().is_none());
    let batches = Batcher::new(Vec::new(), 50).drain_batches();
    assert_eq!(batches.len(), 0);
}

#[test]
fn batches_cover_queue_in_order() {
    let original = stmts(7);
    let mut b = Batcher::new(original.clone(), 3);
    let batches = b.drain_batches();
    assert_eq!(batches.len(), 3);
    assert_eq!(batches[0].len(), 3);
    assert_eq!(batches[1].len(), 3);
    assert_eq!(batches[2].len(), 1);
    let rejoined: Vec<String> = batches.into_iter().flatten().collect();
    assert_eq!(rejoined, original);
}

#[test]
fn exact_multiple_has_full_last_batch() {
    let original = stmts(6);
    let mut b = Batcher::new(original.clone(), 3);
    let batches = b.drain_batches();
    assert_eq!(batches.len(), 2);
    assert_eq!(batches[0].len(), 3);
    assert_eq!(batches[1].len(), 3);
    let rejoined: Vec<String> = batches.into_iter().flatten().collect();
    assert_eq!(rejoined, original);
}

#[test]
fn batch_size_one_yields_one_batch_per_statement() {
    let original = stmts(4);
    let mut b = Batcher::new(original.clone(), 1);
    let batches = b.drain_batches();
    assert_eq!(batches.len(), 4);
    for batch in &batches {
        assert_eq!(batch.len(), 1);
    }
    let rejoined: Vec<String> = batches.into_iter().flatten().collect();
    assert_eq!(rejoined, original);
}

#[test]
fn scenario_a_batch_sizes() {
    let mut b = Batcher::new(stmts(120), 50);
    let batches = b.drain_batches();
    let sizes: Vec<usize> = batches.iter().map(|b| b.len()).collect();
    assert_eq!(sizes, vec![50, 50, 20]);
}

#[test]
fn next_batch_draws_from_the_front() {
    let original = stmts(5);
    let mut b = Batcher::new(original.clone(), 2);
    let first = b.next_batch().unwrap();
    assert_eq!(first, &original[0..2]);
    let second = b.next_batch().unwrap();
    assert_eq!(second, &original[2..4]);
    let third = b.next_batch().unwrap();
    assert_eq!(third, &original[4..5]);
    assert!(b.next_batch().is_none());
}
