use vault_insights::batch::{FetchBatch, FetchOutcome, DEFAULT_PARALLEL_REQUESTS};

fn body(s: &str) -> FetchOutcome {
    FetchOutcome::Body(s.to_string())
}

/// Runs a batch of `n` requests, completing the in-flight ones in the order
/// that `pick` chooses, and checks the limit after every step.
fn run(n: usize, limit: usize, pick: fn(&[usize]) -> usize) -> Vec<FetchOutcome> {
    let mut b = FetchBatch::new(n, limit);
    let mut in_flight: Vec<usize> = Vec::new();
    loop {
        while let Some(i) = b.start_next() {
            in_flight.push(i);
            assert!(in_flight.len() <= limit);
        }
        if in_flight.is_empty() {
            break;
        }
        let k = pick(&in_flight);
        let i = in_flight.remove(k);
        assert!(b.complete(i, body(&format!("doc {}", i))));
    }
    assert!(b.is_done());
    b.into_outcomes().unwrap()
}

fn expected(n: usize) -> Vec<FetchOutcome> {
    (0..n).map(|i| body(&format!("doc {}", i))).collect()
}

#[test]
fn outcomes_keep_input_order_when_last_finishes_first() {
    assert_eq!(run(7, 3, |f| f.len() - 1), expected(7));
}

#[test]
fn outcomes_keep_input_order_when_first_finishes_first() {
    assert_eq!(run(5, 2, |_| 0), expected(5));
}

#[test]
fn outcomes_keep_input_order_with_mixed_completion() {
    assert_eq!(run(10, DEFAULT_PARALLEL_REQUESTS, |f| f.len() / 2), expected(10));
}

#[test]
fn one_request_at_a_time_with_limit_one() {
    let mut b = FetchBatch::new(3, 1);
    assert_eq!(b.start_next(), Some(0));
    assert_eq!(b.start_next(), None);
    assert!(b.complete(0, FetchOutcome::Failed));
    assert_eq!(b.start_next(), Some(1));
    assert_eq!(b.start_next(), None);
}

#[test]
fn in_flight_never_exceeds_limit() {
    for limit in 1..5 {
        let out = run(9, limit, |f| (f.len() * 7 + 3) % f.len());
        assert_eq!(out.len(), 9);
    }
}

#[test]
fn limit_larger_than_batch_starts_everything() {
    let mut b = FetchBatch::new(3, 8);
    assert_eq!(b.start_next(), Some(0));
    assert_eq!(b.start_next(), Some(1));
    assert_eq!(b.start_next(), Some(2));
    assert_eq!(b.start_next(), None);
}

#[test]
fn completing_unstarted_or_finished_request_is_refused() {
    let mut b = FetchBatch::new(2, 1);
    assert!(!b.complete(0, FetchOutcome::Failed));
    assert_eq!(b.start_next(), Some(0));
    assert!(!b.complete(1, FetchOutcome::Failed));
    assert!(b.complete(0, body("a")));
    assert!(!b.complete(0, body("b")));
    assert!(!b.complete(5, body("c")));
    assert_eq!(b.start_next(), Some(1));
    assert!(b.complete(1, FetchOutcome::Unauthorized));
    assert_eq!(b.into_outcomes(), Some(vec![body("a"), FetchOutcome::Unauthorized]));
}

#[test]
fn unfinished_batch_has_no_outcomes() {
    let mut b = FetchBatch::new(2, 2);
    assert!(!b.is_done());
    b.start_next();
    b.start_next();
    b.complete(1, FetchOutcome::Failed);
    assert!(!b.is_done());
    assert_eq!(b.into_outcomes(), None);
}

#[test]
fn empty_batch_is_done_at_once() {
    let b = FetchBatch::new(0, 8);
    assert!(b.is_done());
    assert_eq!(b.into_outcomes(), Some(vec![]));
}

#[test]
fn refused_request_halts_batch() {
    let mut b = FetchBatch::new(4, 2);
    assert_eq!(b.start_next(), Some(0));
    assert_eq!(b.start_next(), Some(1));
    assert!(!b.is_halted());
    assert!(b.complete(0, FetchOutcome::Unauthorized));
    assert!(b.is_halted());
    assert_eq!(b.start_next(), None);
    assert!(b.complete(1, FetchOutcome::Failed));
    assert_eq!(b.start_next(), None);
    assert!(!b.is_done());
}
