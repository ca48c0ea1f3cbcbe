use tork_rs::health::HealthCheckRecord;
use tork_rs::job::JobRecord;
use tork_rs::job_summary::JobSummaryRecord;
use tork_rs::metrics::MetricsRecord;
use tork_rs::node::NodeRecord;
use tork_rs::queue_info::QueueInfoRecord;
use tork_rs::scheduled_job_summary::ScheduledJobSummaryRecord;
use tork_rs::task_log::TaskLogPartRecord;
use tork_rs::text::c_text;
use tork_rs::{health_status, HealthCheck, Job, JobSummary, Metrics, Node, QueueInfo, ScheduledJobSummary, TaskLogPart};

fn text(s: &str) -> Option<Vec<u8>> {
    Some(s.as_bytes().to_vec())
}

#[test]
fn c_text_of_null_is_empty() {
    assert_eq!(c_text(&None), "");
}

#[test]
fn c_text_decodes_utf8() {
    assert_eq!(c_text(&text("s3://data")), "s3://data");
    assert_eq!(c_text(&text("黑风雷")), "黑风雷");
    assert_eq!(c_text(&Some(vec![])), "");
}

#[test]
fn c_text_replaces_invalid_utf8() {
    assert_eq!(c_text(&Some(vec![b'a', 0xff, b'b'])), "a\u{FFFD}b");
}

#[test]
fn job_from_c_record() {
    let record = JobRecord {
        id: text("j1"),
        parent_id: None,
        name: text("test-job"),
        description: None,
        state: text("RUNNING"),
        output: None,
        result: None,
        error: None,
        position: 3,
        task_count: 0,
    };
    let job = Job::from_c(Some(record)).expect("record");
    assert_eq!(job.id, "j1");
    assert_eq!(job.name, "test-job");
    assert_eq!(job.state, "RUNNING");
    assert_eq!(job.position, 3);
    assert_eq!(job.parent_id, "");
    assert!(Job::from_c(None).is_none());
}

#[test]
fn node_from_c_record() {
    let record = NodeRecord {
        id: text("n1"),
        name: text("worker-1"),
        hostname: None,
        queue: None,
        status: text("UP"),
        version: None,
        cpu_percent_bits: 45.5f64.to_bits(),
        port: 8080,
        task_count: 2,
    };
    let node = Node::from_c(Some(record)).expect("record");
    assert_eq!(node.id, "n1");
    assert_eq!(node.status, "UP");
    assert_eq!(node.port, 8080);
    assert_eq!(node.task_count, 2);
    assert_eq!(f64::from_bits(node.cpu_percent_bits), 45.5);
}

#[test]
fn metrics_from_c_record() {
    let record = MetricsRecord { jobs_running: 5, tasks_running: 12, nodes_running: 3, nodes_cpu_percent_bits: 67.2f64.to_bits() };
    let m = Metrics::from_c(Some(record)).expect("record");
    assert_eq!(m.jobs_running, 5);
    assert_eq!(m.tasks_running, 12);
    assert_eq!(m.nodes_running, 3);
    assert_eq!(f64::from_bits(m.nodes_cpu_percent_bits), 67.2);
    assert!(Metrics::from_c(None).is_none());
}

#[test]
fn job_summary_from_c_record() {
    let record = JobSummaryRecord {
        id: text("js2"),
        parent_id: None,
        name: None,
        description: None,
        state: text("COMPLETED"),
        result: None,
        error: None,
        created_at: text("2025-01-15T10:00:00Z"),
        started_at: text("2025-01-15T10:00:01Z"),
        completed_at: text("2025-01-15T10:05:00Z"),
        failed_at: None,
        position: 2,
        task_count: 5,
        progress_bits: 0.4f64.to_bits(),
    };
    let js = JobSummary::from_c(Some(record)).expect("record");
    assert_eq!(js.id, "js2");
    assert!(!js.started_at.is_empty());
    assert!(!js.completed_at.is_empty());
    assert!(js.failed_at.is_empty());
    assert_eq!(js.task_count, 5);
    assert!((f64::from_bits(js.progress_bits) - 0.4).abs() < f64::EPSILON);
}

#[test]
fn scheduled_job_summary_from_c_record() {
    let record = ScheduledJobSummaryRecord {
        id: text("sj1"),
        name: text("nightly-build"),
        description: None,
        state: text("ACTIVE"),
        cron: text("0 0 * * *"),
        created_at: text("2025-01-01T00:00:00Z"),
    };
    let sjs = ScheduledJobSummary::from_c(Some(record)).expect("record");
    assert_eq!(sjs.id, "sj1");
    assert_eq!(sjs.state, "ACTIVE");
    assert_eq!(sjs.cron, "0 0 * * *");
}

#[test]
fn queue_info_from_c_record() {
    let record = QueueInfoRecord { name: text("default"), size: 42, subscribers: 3, unacked: 7 };
    let qi = QueueInfo::from_c(Some(record)).expect("record");
    assert_eq!(qi.name, "default");
    assert_eq!(qi.size, 42);
    assert_eq!(qi.subscribers, 3);
    assert_eq!(qi.unacked, 7);
    assert!(QueueInfo::from_c(None).is_none());
}

#[test]
fn health_is_up_only_when_status_reads_up() {
    let up = HealthCheck::from_c(Some(HealthCheckRecord { status: text("UP"), version: text("0.8.0") })).expect("record");
    assert_eq!(up.status, "UP");
    assert!(up.is_up());
    assert_eq!(up.version, "0.8.0");
    let down = HealthCheck::from_c(Some(HealthCheckRecord { status: text(health_status::DOWN), version: text("0.8.0") })).expect("record");
    assert!(!down.is_up());
    let null_status = HealthCheck::from_c(Some(HealthCheckRecord { status: None, version: None })).expect("record");
    assert!(!null_status.is_up());
    let mut h = HealthCheck::default();
    assert!(!h.is_up());
    h.status = "up".into();
    assert!(!h.is_up());
    h.status = "UP ".into();
    assert!(!h.is_up());
}

fn log_part(number: Option<Vec<u8>>) -> TaskLogPart {
    TaskLogPart::from_c(Some(TaskLogPartRecord {
        id: text("lp1"),
        task_id: text("t42"),
        number,
        contents: text("hello world"),
    }))
    .expect("record")
}

#[test]
fn task_log_part_from_c_record() {
    let lp = log_part(text("3"));
    assert_eq!(lp.id, "lp1");
    assert_eq!(lp.task_id, "t42");
    assert_eq!(lp.number, 3);
    assert_eq!(lp.contents, "hello world");
    assert!(TaskLogPart::from_c(None).is_none());
}

#[test]
fn task_log_part_number_that_reads_as_no_i32_is_zero() {
    assert_eq!(log_part(None).number, 0);
    assert_eq!(log_part(text("")).number, 0);
    assert_eq!(log_part(text("3.5")).number, 0);
    assert_eq!(log_part(text(" 3")).number, 0);
    assert_eq!(log_part(text("2147483648")).number, 0);
    assert_eq!(log_part(text("-")).number, 0);
    assert_eq!(log_part(text("-2147483648")).number, i32::MIN);
    assert_eq!(log_part(text("+17")).number, 17);
}
