//! The requests that the generator produces, one variant per action.

use vstd::prelude::*;

verus! {

/// A request to send to the service under test.
///
/// Each variant carries what the request is built from: the key, and where
/// the action needs them the fields, values, time-to-live, ranges or counts.
#[allow(inconsistent_fields)]
#[derive(Clone, Debug)]
pub enum Command {
    Delete { key: String },
    Get { key: String },
    Hdel { key: String, fields: Vec<String> },
    Hget { key: String, fields: Vec<String> },
    Hset { key: String, fields: Vec<String>, values: Vec<String>, ttl: Option<usize> },
    Llen { key: String },
    Lpush { key: String, values: Vec<String> },
    Lpushx { key: String, values: Vec<String> },
    Lrange { key: String, start: usize, stop: usize },
    Ltrim { key: String, start: usize, stop: usize },
    Rpush { key: String, values: Vec<String> },
    Rpushx { key: String, values: Vec<String> },
    /// Stores `value` under `key`.
    SetKey { key: String, value: String, ttl: Option<usize> },
    SarrayCreate {
        key: String,
        esize: usize,
        watermark_low: Option<usize>,
        watermark_high: Option<usize>,
    },
    SarrayDelete { key: String },
    SarrayFind { key: String, value: String },
    SarrayGet { key: String, index: Option<u64>, count: Option<u64> },
    SarrayInsert { key: String, values: Vec<String> },
    SarrayLen { key: String },
    SarrayRemove { key: String, values: Vec<String> },
    SarrayTruncate { key: String, count: u64 },
}

} // verus!
