//! Record types of the Tork workflow engine and of its web API, with the
//! rules that classify them: which tasks are active, which queues belong to
//! the coordinator, which services are up.

pub mod broker;
pub mod decimal;
pub mod health;
pub mod health_status;
pub mod job;
pub mod job_state;
pub mod job_summary;
pub mod metrics;
pub mod node;
pub mod page;
pub mod queue;
pub mod queue_info;
pub mod scheduled_job;
pub mod scheduled_job_state;
pub mod scheduled_job_summary;
pub mod task;
pub mod task_log;
pub mod task_state;
pub mod text;

pub use broker::{is_coordinator_queue, is_task_queue, is_worker_queue};
pub use health::HealthCheck;
pub use job::Job;
pub use job_summary::JobSummary;
pub use metrics::Metrics;
pub use node::Node;
pub use page::{Page, RawPage};
pub use queue_info::QueueInfo;
pub use scheduled_job::ScheduledJob;
pub use scheduled_job_summary::ScheduledJobSummary;
pub use task::Task;
pub use task_log::TaskLogPart;
