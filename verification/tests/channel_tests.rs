use ani_scheduler::channel::ResultQueue;
use ani_scheduler::channel::RESULT_CHANNEL_CAPACITY;
use ani_scheduler::task::TaskResult;

fn result(name: &str) -> TaskResult {
    TaskResult { name: name.to_string(), result: None }
}

#[test]
fn results_come_out_first_in_first_out() {
    let mut q = ResultQueue::new(10);
    assert!(q.push(result("a")));
    assert!(q.push(result("b")));
    assert!(q.push(result("c")));
    assert_eq!(q.pop().unwrap().name, "a");
    assert_eq!(q.pop().unwrap().name, "b");
    assert_eq!(q.pop().unwrap().name, "c");
    assert_eq!(q.pop(), None);
}

#[test]
fn a_queue_below_capacity_accepts_every_result() {
    // a burst the size of the whole configured capacity is absorbed
    let mut q = ResultQueue::new(RESULT_CHANNEL_CAPACITY);
    for i in 0..RESULT_CHANNEL_CAPACITY {
        assert!(q.push(result(&format!("r{i}"))));
    }
    assert_eq!(q.len(), RESULT_CHANNEL_CAPACITY);
}

#[test]
fn a_full_queue_refuses_and_keeps_its_contents() {
    let mut q = ResultQueue::new(2);
    assert!(q.push(result("a")));
    assert!(q.push(result("b")));
    assert!(!q.push(result("c")));
    assert_eq!(q.len(), 2);
    assert_eq!(q.pop().unwrap().name, "a");
    // popping makes room again
    assert!(q.push(result("c")));
    assert_eq!(q.pop().unwrap().name, "b");
    assert_eq!(q.pop().unwrap().name, "c");
}
