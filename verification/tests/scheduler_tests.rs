use bloblist::records::{Target, TargetResult, TerminalError};
use bloblist::scheduler::Scheduler;

fn target(account: &str, container: &str) -> Target {
    Target { account: account.to_string(), container: container.to_string() }
}

fn ok_result(n: u64) -> TargetResult {
    TargetResult { record_count: n, error: None }
}

#[test]
fn concurrency_bound_holds_throughout() {
    let targets: Vec<Target> = (0..5).map(|i| target("acct", &format!("c{}", i))).collect();
    let mut s = Scheduler::new(targets, 2);
    let mut active: Vec<Target> = Vec::new();
    let mut completed = 0usize;
    // Drive admissions and completions in an arbitrary interleaving; the
    // in-flight set must never exceed the bound, and all five must finish.
    while !s.finished() {
        while s.has_capacity() {
            match s.start_next() {
                Some(t) => {
                    active.push(t);
                    assert!(active.len() <= 2);
                }
                None => break,
            }
        }
        assert!(active.len() <= 2);
        // Finish the most recently admitted first: completion order, not
        // submission order, frees the slot.
        if !active.is_empty() {
            let t = active.pop().unwrap();
            let idx = s.in_flight.iter().position(|x| x.container == t.container).unwrap();
            s.complete(idx, ok_result(1));
            completed += 1;
        }
    }
    assert_eq!(completed, 5);
    assert_eq!(s.results.len(), 5);
    assert_eq!(s.next_idx, 5);
}

#[test]
fn admission_blocks_at_capacity() {
    let targets = vec![target("a", "c1"), target("a", "c2"), target("a", "c3")];
    let mut s = Scheduler::new(targets, 2);
    assert!(s.start_next().is_some());
    assert!(s.start_next().is_some());
    assert!(!s.has_capacity());
    assert!(s.start_next().is_none());
    s.complete(0, ok_result(0));
    assert!(s.has_capacity());
    assert!(s.start_next().is_some());
}

#[test]
fn failed_target_frees_its_slot_like_a_completed_one() {
    let targets = vec![target("a", "c1"), target("a", "c2"), target("a", "c3")];
    let mut s = Scheduler::new(targets, 1);
    let first = s.start_next().unwrap();
    assert_eq!(first.container, "c1");
    // The first target fails; its siblings are admitted and complete anyway.
    s.complete(
        0,
        TargetResult { record_count: 0, error: Some(TerminalError::TransportRetriesExhausted) },
    );
    let second = s.start_next().unwrap();
    assert_eq!(second.container, "c2");
    s.complete(0, ok_result(7));
    let third = s.start_next().unwrap();
    assert_eq!(third.container, "c3");
    s.complete(
        0,
        TargetResult { record_count: 2, error: Some(TerminalError::SinkWriteFailed) },
    );
    assert!(s.finished());
    assert_eq!(s.results.len(), 3);
    assert!(s.results[0].result.error.is_some());
    assert!(s.results[1].result.error.is_none());
    assert_eq!(s.results[1].result.record_count, 7);
    assert!(matches!(
        s.results[2].result.error,
        Some(TerminalError::SinkWriteFailed)
    ));
    // Every submitted target is accounted for exactly once.
    let mut finished: Vec<&str> =
        s.results.iter().map(|c| c.target.container.as_str()).collect();
    finished.sort();
    assert_eq!(finished, ["c1", "c2", "c3"]);
}

#[test]
fn no_admission_past_the_target_list() {
    let targets = vec![target("a", "c1")];
    let mut s = Scheduler::new(targets, 4);
    assert!(s.start_next().is_some());
    assert!(s.start_next().is_none());
    assert!(!s.finished());
    s.complete(0, ok_result(0));
    assert!(s.finished());
}
