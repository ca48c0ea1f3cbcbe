use tork_rs::task::TaskRecord;
use tork_rs::{task_state, Task};

#[test]
fn test_task_is_active() {
    let mut t = Task::default();
    t.state = "RUNNING".into();
    assert!(t.is_active());
    t.state = "COMPLETED".into();
    assert!(!t.is_active());
}

#[test]
fn active_states_are_exactly_the_unfinished_ones() {
    let mut t = Task::default();
    for state in [task_state::CREATED, task_state::PENDING, task_state::SCHEDULED, task_state::RUNNING] {
        t.state = state.into();
        assert!(t.is_active(), "{state}");
    }
    for state in [
        task_state::CANCELLED,
        task_state::STOPPED,
        task_state::COMPLETED,
        task_state::FAILED,
        task_state::SKIPPED,
        "",
        "running",
        "RUNNING\0",
    ] {
        t.state = state.into();
        assert!(!t.is_active(), "{state:?}");
    }
}

#[test]
fn default_task_is_blank() {
    let t = Task::default();
    assert!(t.id.is_empty() && t.state.is_empty() && t.var_name.is_empty() && t.if_expr.is_empty());
    assert_eq!(t.position, 0);
    assert_eq!(t.priority, 0);
    assert_eq!(f64::from_bits(t.progress_bits), 0.0);
}

fn text(s: &str) -> Option<Vec<u8>> {
    Some(s.as_bytes().to_vec())
}

#[test]
fn task_from_c_record() {
    let record = TaskRecord {
        id: text("t1"),
        name: text("hello"),
        description: None,
        state: text("RUNNING"),
        image: text("alpine:latest"),
        run: text("echo hello"),
        queue: None,
        error: None,
        result: None,
        var_name: text("out"),
        if_expr: text("{{ true }}"),
        timeout: None,
        gpus: None,
        workdir: None,
        position: 1,
        priority: 5,
        progress_bits: 0.75f64.to_bits(),
    };
    let task = Task::from_c(Some(record)).expect("record");
    assert_eq!(task.id, "t1");
    assert_eq!(task.image, "alpine:latest");
    assert_eq!(task.run, "echo hello");
    assert_eq!(task.description, "");
    assert_eq!(task.var_name, "out");
    assert_eq!(task.if_expr, "{{ true }}");
    assert_eq!(task.priority, 5);
    assert_eq!(task.position, 1);
    assert_eq!(f64::from_bits(task.progress_bits), 0.75);
    assert!(task.is_active());
    assert!(Task::from_c(None).is_none());
}
