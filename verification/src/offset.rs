//! Checkpoint/offset information for source connectors.

use vstd::prelude::*;
use vstd::string::*;

verus! {

/// Checkpoint/offset information for source connectors.
#[derive(Debug, Clone, PartialEq, Eq)]
pub struct Offset {
    /// The partition or source identifier
    pub partition: String,
    /// The offset value (interpretation depends on source)
    pub value: u64,
    /// Optional metadata
    pub metadata: Option<String>,
}

impl Offset {
    /// Create a new offset.
    pub fn new(partition: &str, value: u64) -> (o: Self)
        ensures
            o.partition@ == partition@,
            o.value == value,
            o.metadata is None,
    {
        Offset { partition: <String as StringExecFns>::from_str(partition), value, metadata: None }
    }

    /// Create an offset with metadata.
    pub fn with_metadata(partition: &str, value: u64, metadata: &str) -> (o: Self)
        ensures
            o.partition@ == partition@,
            o.value == value,
            o.metadata matches Some(m) && m@ == metadata@,
    {
        Offset {
            partition: <String as StringExecFns>::from_str(partition),
            value,
            metadata: Some(<String as StringExecFns>::from_str(metadata)),
        }
    }
}

} // verus!
