use tork_rs::{is_coordinator_queue, is_task_queue, is_worker_queue, queue};

#[test]
fn test_queue_classification() {
    assert!(is_coordinator_queue("pending"));
    assert!(is_coordinator_queue("heartbeat"));
    assert!(is_coordinator_queue("jobs"));
    assert!(!is_coordinator_queue("default"));
    assert!(!is_coordinator_queue("my-custom-queue"));

    assert!(is_worker_queue("default"));
    assert!(!is_worker_queue("pending"));

    assert!(is_task_queue("default"));
    assert!(is_task_queue("gpu-workers"));
    assert!(!is_task_queue("pending"));
    assert!(!is_task_queue("x-exclusive-1"));
}

#[test]
fn every_well_known_queue_but_default_is_coordinator_internal() {
    for name in [
        queue::PENDING,
        queue::STARTED,
        queue::COMPLETED,
        queue::ERROR,
        queue::HEARTBEAT,
        queue::JOBS,
        queue::LOGS,
        queue::PROGRESS,
        queue::REDELIVERIES,
    ] {
        assert!(is_coordinator_queue(name), "{name}");
        assert!(!is_worker_queue(name), "{name}");
        assert!(!is_task_queue(name), "{name}");
    }
    assert!(!is_coordinator_queue(queue::DEFAULT));
    assert!(is_worker_queue(queue::DEFAULT));
    assert!(is_task_queue(queue::DEFAULT));
}

#[test]
fn exclusive_queues_are_worker_queues_but_not_task_queues() {
    assert!(is_worker_queue("x-exclusive-1"));
    assert!(!is_coordinator_queue("x-exclusive-1"));
    assert!(!is_task_queue("x-"));
    assert!(is_task_queue("x"));
    assert!(is_task_queue("-x-"));
}

#[test]
fn names_are_compared_exactly() {
    assert!(!is_coordinator_queue("Pending"));
    assert!(!is_coordinator_queue("pending "));
    assert!(!is_coordinator_queue("pendin"));
    assert!(!is_coordinator_queue(""));
    assert!(is_worker_queue(""));
    assert!(is_task_queue(""));
}

#[test]
fn names_with_nul_are_no_queue_at_all() {
    assert!(!is_coordinator_queue("pend\0ing"));
    assert!(!is_worker_queue("default\0"));
    assert!(!is_task_queue("\0"));
}
