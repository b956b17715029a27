use vstd::prelude::*;

verus! {

/// The low and high watermarks of a partition, captured once at start.
#[derive(Debug, Clone, Copy, PartialEq, Eq, Structural)]
pub struct Offsets {
    pub low: i64,
    pub high: i64,
}

/// The timestamp written when a message carries none.
pub const NO_TIMESTAMP: i64 = -1;

/// One consumed message, decoded, with where it came from.
#[derive(Debug)]
pub struct Record {
    pub key: serde_json::Value,
    pub value: serde_json::Value,
    pub topic: String,
    pub partition: i32,
    pub offset: i64,
    /// Milliseconds since the epoch, or `NO_TIMESTAMP`.
    pub timestamp: i64,
}

impl Record {
    /// The record of a message of `topic`, `partition` and `offset` whose
    /// key and value decoded to `key` and `value`.
    pub fn new(
        topic: String,
        partition: i32,
        offset: i64,
        timestamp: Option<i64>,
        key: serde_json::Value,
        value: serde_json::Value,
    ) -> (r: Record)
        ensures
            r.key == key,
            r.value == value,
            r.topic@ == topic@,
            r.partition == partition,
            r.offset == offset,
            r.timestamp == match timestamp {
                Some(t) => t,
                None => NO_TIMESTAMP,
            },
    {
        let timestamp = match timestamp {
            Some(t) => t,
            None => NO_TIMESTAMP,
        };
        Record { key, value, topic, partition, offset, timestamp }
    }
}

} // verus!
