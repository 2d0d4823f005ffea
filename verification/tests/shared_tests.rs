use std::sync::{Arc, Mutex};

use main_dispatch::lifecycle::{Lifecycle, QuitOutcome};
use main_dispatch::queue::CallbackQueue;

#[test]
fn enqueues_through_three_handles_drain_in_completion_order() {
    let queue: Arc<Mutex<CallbackQueue<&'static str>>> = Arc::new(Mutex::new(CallbackQueue::new()));
    let handles = [queue.clone(), queue.clone(), queue.clone()];
    let mut wakes = Vec::new();
    for (handle, name) in handles.iter().zip(["A", "B", "C"]) {
        wakes.push(handle.lock().unwrap().enqueue(name));
    }
    assert_eq!(wakes, vec![true, false, false]);
    assert_eq!(queue.lock().unwrap().drain(), vec!["A", "B", "C"]);
    assert!(queue.lock().unwrap().drain().is_empty());
}

#[test]
fn overlapping_quits_start_one_teardown() {
    let state = Arc::new(Mutex::new(Lifecycle::new()));
    let first = state.clone();
    let second = state.clone();
    let mut outcomes = Vec::new();
    outcomes.push(first.lock().unwrap().quit());
    outcomes.push(second.lock().unwrap().quit());
    first.lock().unwrap().teardown_done();
    assert_eq!(outcomes, vec![QuitOutcome::Proceed, QuitOutcome::Contended]);
    assert!(state.lock().unwrap().is_quitting());
    assert_eq!(second.lock().unwrap().quit(), QuitOutcome::AlreadyQuitting);
}
