//! Worker nodes that run tasks.

use vstd::prelude::*;
use vstd::utf8::{decode_utf8, valid_utf8};

use crate::text::{c_text, c_text_view, field_bytes};

verus! {

/// A worker node.
#[derive(Clone, Debug)]
pub struct Node {
    /// Identifier of the node.
    pub id: String,
    /// Name of the node.
    pub name: String,
    /// Host name of the node.
    pub hostname: String,
    /// Queue that the node consumes.
    pub queue: String,
    /// Status of the node.
    pub status: String,
    /// Version of the engine on the node.
    pub version: String,
    /// CPU load of the node in percent, as the bit pattern of an IEEE 754 binary64 number.
    pub cpu_percent_bits: u64,
    /// Port of the node.
    pub port: i32,
    /// Number of tasks running on the node.
    pub task_count: i32,
}

/// A `Node` as the engine's C interface hands it over: each text field is
/// the bytes before its terminating NUL, or `None` where the pointer was null.
#[derive(Clone, Debug)]
pub struct NodeRecord {
    pub id: Option<Vec<u8>>,
    pub name: Option<Vec<u8>>,
    pub hostname: Option<Vec<u8>>,
    pub queue: Option<Vec<u8>>,
    pub status: Option<Vec<u8>>,
    pub version: Option<Vec<u8>>,
    pub cpu_percent_bits: u64,
    pub port: i32,
    pub task_count: i32,
}

impl Node {
    /// Every text field is empty and every number zero.
    pub open spec fn is_blank(self) -> bool {
        &&& self.id@.len() == 0
        &&& self.name@.len() == 0
        &&& self.hostname@.len() == 0
        &&& self.queue@.len() == 0
        &&& self.status@.len() == 0
        &&& self.version@.len() == 0
        &&& self.cpu_percent_bits == 0
        &&& self.port == 0
        &&& self.task_count == 0
    }

    /// Each field holds what the record's field of the same name holds.
    pub open spec fn read_from(self, record: NodeRecord) -> bool {
        &&& self.id@ == c_text_view(field_bytes(&record.id))
        &&& self.name@ == c_text_view(field_bytes(&record.name))
        &&& self.hostname@ == c_text_view(field_bytes(&record.hostname))
        &&& self.queue@ == c_text_view(field_bytes(&record.queue))
        &&& self.status@ == c_text_view(field_bytes(&record.status))
        &&& self.version@ == c_text_view(field_bytes(&record.version))
        &&& self.cpu_percent_bits == record.cpu_percent_bits
        &&& self.port == record.port
        &&& self.task_count == record.task_count
    }

    /// Builds the `Node` from the record that the engine's C interface returned;
    /// a null record gives `None`.
    pub fn from_c(record: Option<NodeRecord>) -> (built: Option<Node>)
        ensures
            record is None ==> built is None,
            record matches Some(r) ==> (built matches Some(b) && b.read_from(r)),
            record matches Some(r) ==> (built matches Some(b) && (
                b.id@ == c_text_view(field_bytes(&r.id))
                && b.name@ == c_text_view(field_bytes(&r.name))
                && b.hostname@ == c_text_view(field_bytes(&r.hostname))
                && b.queue@ == c_text_view(field_bytes(&r.queue))
                && b.status@ == c_text_view(field_bytes(&r.status))
                && b.version@ == c_text_view(field_bytes(&r.version))
                && b.cpu_percent_bits == r.cpu_percent_bits
                && b.port == r.port
                && b.task_count == r.task_count
            )),
    {
        match record {
            None => None,
            Some(r) => Some(Node {
                id: c_text(&r.id),
                name: c_text(&r.name),
                hostname: c_text(&r.hostname),
                queue: c_text(&r.queue),
                status: c_text(&r.status),
                version: c_text(&r.version),
                cpu_percent_bits: r.cpu_percent_bits,
                port: r.port,
                task_count: r.task_count,
            }),
        }
    }
}

/// A `Node` built from a record holds in each field what the record's field of
/// the same name holds: a number as it is, and a text field the characters its
/// bytes encode, or no text where the field was null.
pub proof fn law_node_fields_come_from_their_namesakes(built: Node, record: NodeRecord)
    requires
        built.read_from(record),
    ensures
        record.id is None ==> built.id@.len() == 0,
        record.id matches Some(v) ==> (valid_utf8(v@) ==> built.id@ == decode_utf8(v@)),
        record.name is None ==> built.name@.len() == 0,
        record.name matches Some(v) ==> (valid_utf8(v@) ==> built.name@ == decode_utf8(v@)),
        record.hostname is None ==> built.hostname@.len() == 0,
        record.hostname matches Some(v) ==> (valid_utf8(v@) ==> built.hostname@ == decode_utf8(v@)),
        record.queue is None ==> built.queue@.len() == 0,
        record.queue matches Some(v) ==> (valid_utf8(v@) ==> built.queue@ == decode_utf8(v@)),
        record.status is None ==> built.status@.len() == 0,
        record.status matches Some(v) ==> (valid_utf8(v@) ==> built.status@ == decode_utf8(v@)),
        record.version is None ==> built.version@.len() == 0,
        record.version matches Some(v) ==> (valid_utf8(v@) ==> built.version@ == decode_utf8(v@)),
        built.cpu_percent_bits == record.cpu_percent_bits,
        built.port == record.port,
        built.task_count == record.task_count,
{
}

impl Default for Node {
    fn default() -> (blank: Node)
        ensures
            blank.is_blank(),
    {
        Node {
            id: String::new(),
            name: String::new(),
            hostname: String::new(),
            queue: String::new(),
            status: String::new(),
            version: String::new(),
            cpu_percent_bits: 0,
            port: 0,
            task_count: 0,
        }
    }
}

} // verus!
