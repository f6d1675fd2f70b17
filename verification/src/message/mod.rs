//! Records exchanged with connectors, and their routing context.

mod context;
mod sink_record;
mod source_record;

pub use context::{RecordContext, RoutingContext};
pub use sink_record::{ConsumedMessage, DanubeMetadata, SinkRecord};
pub use source_record::{SourceEnvelope, SourceRecord};
