//! Cluster-wide counters.

use vstd::prelude::*;


verus! {

/// Counters of the whole cluster.
#[derive(Clone, Debug)]
pub struct Metrics {
    /// Number of running jobs.
    pub jobs_running: i32,
    /// Number of running tasks.
    pub tasks_running: i32,
    /// Number of nodes online.
    pub nodes_running: i32,
    /// Mean CPU load of the nodes in percent, as the bit pattern of an IEEE 754 binary64 number.
    pub nodes_cpu_percent_bits: u64,
}

/// A `Metrics` as the engine's C interface hands it over: each text field is
/// the bytes before its terminating NUL, or `None` where the pointer was null.
#[derive(Clone, Debug)]
pub struct MetricsRecord {
    pub jobs_running: i32,
    pub tasks_running: i32,
    pub nodes_running: i32,
    pub nodes_cpu_percent_bits: u64,
}

impl Metrics {
    /// Every text field is empty and every number zero.
    pub open spec fn is_blank(self) -> bool {
        &&& self.jobs_running == 0
        &&& self.tasks_running == 0
        &&& self.nodes_running == 0
        &&& self.nodes_cpu_percent_bits == 0
    }

    /// Each field holds what the record's field of the same name holds.
    pub open spec fn read_from(self, record: MetricsRecord) -> bool {
        &&& self.jobs_running == record.jobs_running
        &&& self.tasks_running == record.tasks_running
        &&& self.nodes_running == record.nodes_running
        &&& self.nodes_cpu_percent_bits == record.nodes_cpu_percent_bits
    }

    /// Builds the `Metrics` from the record that the engine's C interface returned;
    /// a null record gives `None`.
    pub fn from_c(record: Option<MetricsRecord>) -> (built: Option<Metrics>)
        ensures
            record is None ==> built is None,
            record matches Some(r) ==> (built matches Some(b) && b.read_from(r)),
            record matches Some(r) ==> (built matches Some(b) && (
                b.jobs_running == r.jobs_running
                && b.tasks_running == r.tasks_running
                && b.nodes_running == r.nodes_running
                && b.nodes_cpu_percent_bits == r.nodes_cpu_percent_bits
            )),
    {
        match record {
            None => None,
            Some(r) => Some(Metrics {
                jobs_running: r.jobs_running,
                tasks_running: r.tasks_running,
                nodes_running: r.nodes_running,
                nodes_cpu_percent_bits: r.nodes_cpu_percent_bits,
            }),
        }
    }
}

/// A `Metrics` built from a record holds in each field what the record's field of
/// the same name holds: a number as it is, and a text field the characters its
/// bytes encode, or no text where the field was null.
pub proof fn law_metrics_fields_come_from_their_namesakes(built: Metrics, record: MetricsRecord)
    requires
        built.read_from(record),
    ensures
        built.jobs_running == record.jobs_running,
        built.tasks_running == record.tasks_running,
        built.nodes_running == record.nodes_running,
        built.nodes_cpu_percent_bits == record.nodes_cpu_percent_bits,
{
}

impl Default for Metrics {
    fn default() -> (blank: Metrics)
        ensures
            blank.is_blank(),
    {
        Metrics {
            jobs_running: 0,
            tasks_running: 0,
            nodes_running: 0,
            nodes_cpu_percent_bits: 0,
        }
    }
}

} // verus!
