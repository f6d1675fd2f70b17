//! # Danube Connect Core
//!
//! Core SDK for building connectors between Danube Messaging and external
//! systems: sink connectors consume messages from Danube and write them to an
//! external system; source connectors read from an external system and
//! publish to Danube.
//!
//! The library holds what connectors and their runtimes compute:
//! configuration and its validation, records and their routing context, the
//! schema-aware payload codec, routes, retry backoff, health tracking,
//! batching, and the decisions of the sink and source runtimes. Their
//! contracts are proved with Verus.

mod attributes;
mod clock;
mod codec;
mod config;
mod encoding;
mod error;
mod json;
mod message;
mod metrics;
mod offset;
mod retry;
mod route;
pub mod runtime;
mod schema;
mod text;
pub mod utils;

pub use attributes::{Attributes, StringMap};
pub use codec::{decode_payload, serialize_with_schema, PayloadEncoding};
pub use config::{
    ConnectorConfig, ConsumerConfig, ProcessingSettings, ProducerConfig, RetrySettings,
    SchemaConfig, SchemaMapping, SubscriptionType, VersionStrategy,
};
pub use config::{
    default_auto_register, default_batch_size, default_health_check_failure_threshold,
    default_health_check_interval_ms, default_batch_timeout_ms, default_log_level,
    default_max_backoff_ms, default_max_retries, default_metrics_port, default_poll_interval_ms,
    default_retry_backoff_ms,
};
pub use error::{ConnectorError, ConnectorResult};
pub use message::{
    ConsumedMessage, DanubeMetadata, RecordContext, RoutingContext, SinkRecord, SourceEnvelope,
    SourceRecord,
};
pub use metrics::{health_gauge_value, ConnectorMetric, ConnectorMetrics, MetricKind};
pub use offset::Offset;
pub use retry::{jittered_backoff_ms, RetryConfig, RetryDecision, RetryStrategy};
pub use route::{
    RouteDispatchPolicy, RouteSchemaPolicy, RouteSubscriptionPolicy, SinkRoute, SourceRoute,
};
pub use runtime::context::{CacheStats, SchemaCache};
pub use schema::{SchemaInfo, SchemaType};
pub use utils::{flush_due, Batcher, HealthChecker, HealthStatus};
