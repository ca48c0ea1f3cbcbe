use tork_rs::{health_status, job_state, queue, scheduled_job_state, task_state};

#[test]
fn test_constants() {
    assert_eq!(scheduled_job_state::ACTIVE, "ACTIVE");
    assert_eq!(scheduled_job_state::PAUSED, "PAUSED");
    assert_eq!(health_status::UP, "UP");
    assert_eq!(health_status::DOWN, "DOWN");
    assert_eq!(queue::PENDING, "pending");
    assert_eq!(queue::DEFAULT, "default");
    assert_eq!(queue::EXCLUSIVE_PREFIX, "x-");
}

#[test]
fn job_and_task_state_names() {
    assert_eq!(job_state::PENDING, "PENDING");
    assert_eq!(job_state::SCHEDULED, "SCHEDULED");
    assert_eq!(job_state::RUNNING, "RUNNING");
    assert_eq!(job_state::CANCELLED, "CANCELLED");
    assert_eq!(job_state::COMPLETED, "COMPLETED");
    assert_eq!(job_state::FAILED, "FAILED");
    assert_eq!(job_state::RESTART, "RESTART");
    assert_eq!(task_state::CREATED, "CREATED");
    assert_eq!(task_state::PENDING, "PENDING");
    assert_eq!(task_state::SCHEDULED, "SCHEDULED");
    assert_eq!(task_state::RUNNING, "RUNNING");
    assert_eq!(task_state::CANCELLED, "CANCELLED");
    assert_eq!(task_state::STOPPED, "STOPPED");
    assert_eq!(task_state::COMPLETED, "COMPLETED");
    assert_eq!(task_state::FAILED, "FAILED");
    assert_eq!(task_state::SKIPPED, "SKIPPED");
}

#[test]
fn queue_names() {
    assert_eq!(queue::STARTED, "started");
    assert_eq!(queue::COMPLETED, "completed");
    assert_eq!(queue::ERROR, "error");
    assert_eq!(queue::HEARTBEAT, "heartbeat");
    assert_eq!(queue::JOBS, "jobs");
    assert_eq!(queue::LOGS, "logs");
    assert_eq!(queue::PROGRESS, "progress");
    assert_eq!(queue::REDELIVERIES, "redeliveries");
}
