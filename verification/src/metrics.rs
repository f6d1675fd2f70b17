//! The metrics connectors report: their names, kinds, descriptions and labels.
//! Emitting them (through the `metrics` crate and its Prometheus exporter) is
//! done by the runtime around the library.

use vstd::prelude::*;
use vstd::string::*;

use crate::config::copy_string;

verus! {

/// The kind of a metric.
#[derive(Debug, Clone, Copy, PartialEq, Eq, Structural)]
pub enum MetricKind {
    Counter,
    Histogram,
    Gauge,
}

/// The metrics of a connector.
#[derive(Debug, Clone, Copy, PartialEq, Eq, Structural)]
pub enum ConnectorMetric {
    MessagesReceived,
    MessagesProcessed,
    MessagesFailed,
    MessagesRetried,
    ProcessingDuration,
    BatchSize,
    InflightMessages,
    Health,
}

impl ConnectorMetric {
    /// All metrics, in registration order.
    pub fn all() -> (v: Vec<ConnectorMetric>)
        ensures
            v@ == seq![
                ConnectorMetric::MessagesReceived,
                ConnectorMetric::MessagesProcessed,
                ConnectorMetric::MessagesFailed,
                ConnectorMetric::MessagesRetried,
                ConnectorMetric::ProcessingDuration,
                ConnectorMetric::BatchSize,
                ConnectorMetric::InflightMessages,
                ConnectorMetric::Health,
            ],
    {
        let mut v = Vec::new();
        v.push(ConnectorMetric::MessagesReceived);
        v.push(ConnectorMetric::MessagesProcessed);
        v.push(ConnectorMetric::MessagesFailed);
        v.push(ConnectorMetric::MessagesRetried);
        v.push(ConnectorMetric::ProcessingDuration);
        v.push(ConnectorMetric::BatchSize);
        v.push(ConnectorMetric::InflightMessages);
        v.push(ConnectorMetric::Health);
        v
    }

    /// The metric's name.
    pub fn name(&self) -> (s: &'static str)
        ensures
            s@ == (match *self {
                ConnectorMetric::MessagesReceived => "danube_connector_messages_received_total"@,
                ConnectorMetric::MessagesProcessed => "danube_connector_messages_processed_total"@,
                ConnectorMetric::MessagesFailed => "danube_connector_messages_failed_total"@,
                ConnectorMetric::MessagesRetried => "danube_connector_messages_retried_total"@,
                ConnectorMetric::ProcessingDuration => "danube_connector_processing_duration_seconds"@,
                ConnectorMetric::BatchSize => "danube_connector_batch_size"@,
                ConnectorMetric::InflightMessages => "danube_connector_inflight_messages"@,
                ConnectorMetric::Health => "danube_connector_health"@,
            }),
    {
        match self {
            ConnectorMetric::MessagesReceived => "danube_connector_messages_received_total",
            ConnectorMetric::MessagesProcessed => "danube_connector_messages_processed_total",
            ConnectorMetric::MessagesFailed => "danube_connector_messages_failed_total",
            ConnectorMetric::MessagesRetried => "danube_connector_messages_retried_total",
            ConnectorMetric::ProcessingDuration => "danube_connector_processing_duration_seconds",
            ConnectorMetric::BatchSize => "danube_connector_batch_size",
            ConnectorMetric::InflightMessages => "danube_connector_inflight_messages",
            ConnectorMetric::Health => "danube_connector_health",
        }
    }

    /// The metric's kind.
    pub fn kind(&self) -> (k: MetricKind)
        ensures
            k == (match *self {
                ConnectorMetric::ProcessingDuration | ConnectorMetric::BatchSize => MetricKind::Histogram,
                ConnectorMetric::InflightMessages | ConnectorMetric::Health => MetricKind::Gauge,
                _ => MetricKind::Counter,
            }),
    {
        match self {
            ConnectorMetric::ProcessingDuration | ConnectorMetric::BatchSize => MetricKind::Histogram,
            ConnectorMetric::InflightMessages | ConnectorMetric::Health => MetricKind::Gauge,
            _ => MetricKind::Counter,
        }
    }

    /// The metric's description.
    pub fn description(&self) -> (s: &'static str)
        ensures
            s@ == (match *self {
                ConnectorMetric::MessagesReceived => "Total number of messages received by the connector"@,
                ConnectorMetric::MessagesProcessed => "Total number of messages successfully processed"@,
                ConnectorMetric::MessagesFailed => "Total number of messages that failed processing"@,
                ConnectorMetric::MessagesRetried => "Total number of message processing retries"@,
                ConnectorMetric::ProcessingDuration => "Time spent processing each message"@,
                ConnectorMetric::BatchSize => "Number of messages in each batch"@,
                ConnectorMetric::InflightMessages => "Current number of messages being processed"@,
                ConnectorMetric::Health => "Connector health status (1 = healthy, 0 = unhealthy)"@,
            }),
    {
        match self {
            ConnectorMetric::MessagesReceived => "Total number of messages received by the connector",
            ConnectorMetric::MessagesProcessed => "Total number of messages successfully processed",
            ConnectorMetric::MessagesFailed => "Total number of messages that failed processing",
            ConnectorMetric::MessagesRetried => "Total number of message processing retries",
            ConnectorMetric::ProcessingDuration => "Time spent processing each message",
            ConnectorMetric::BatchSize => "Number of messages in each batch",
            ConnectorMetric::InflightMessages => "Current number of messages being processed",
            ConnectorMetric::Health => "Connector health status (1 = healthy, 0 = unhealthy)",
        }
    }
}

/// The value the health gauge shows: 1 when healthy, 0 otherwise.
pub fn health_gauge_value(healthy: bool) -> (v: u32)
    ensures
        v == (if healthy { 1u32 } else { 0u32 }),
{
    if healthy { 1 } else { 0 }
}

/// The labels of a connector's metrics: which connector, on which topic.
#[derive(Debug, Clone)]
pub struct ConnectorMetrics {
    connector_name: String,
    topic: String,
}

/// The labels `connector` and `topic`.
pub open spec fn base_labels(connector: Seq<char>, topic: Seq<char>) -> Seq<(Seq<char>, Seq<char>)> {
    seq![("connector"@, connector), ("topic"@, topic)]
}

pub open spec fn labels_view(v: Seq<(String, String)>) -> Seq<(Seq<char>, Seq<char>)> {
    v.map_values(|l: (String, String)| (l.0@, l.1@))
}

impl ConnectorMetrics {
    pub closed spec fn spec_connector_name(&self) -> Seq<char> {
        self.connector_name@
    }

    pub closed spec fn spec_topic(&self) -> Seq<char> {
        self.topic@
    }

    /// Create the metrics of a connector on a topic.
    pub fn new(connector_name: &str, topic: &str) -> (m: Self)
        ensures
            m.spec_connector_name() == connector_name@,
            m.spec_topic() == topic@,
    {
        ConnectorMetrics {
            connector_name: <String as StringExecFns>::from_str(connector_name),
            topic: <String as StringExecFns>::from_str(topic),
        }
    }

    /// The connector name label.
    pub fn connector_name(&self) -> (s: &str)
        ensures
            s@ == self.spec_connector_name(),
    {
        self.connector_name.as_str()
    }

    /// The topic label.
    pub fn topic(&self) -> (s: &str)
        ensures
            s@ == self.spec_topic(),
    {
        self.topic.as_str()
    }

    /// The labels every metric of this connector carries.
    pub fn labels(&self) -> (v: Vec<(String, String)>)
        ensures
            labels_view(v@) == base_labels(self.spec_connector_name(), self.spec_topic()),
    {
        let mut v = Vec::new();
        v.push((<String as StringExecFns>::from_str("connector"), copy_string(&self.connector_name)));
        v.push((<String as StringExecFns>::from_str("topic"), copy_string(&self.topic)));
        assert(labels_view(v@) =~= base_labels(self.spec_connector_name(), self.spec_topic()));
        v
    }

    /// The labels of a failure: the connector labels and the error type.
    pub fn error_labels(&self, error_type: &str) -> (v: Vec<(String, String)>)
        ensures
            labels_view(v@) == base_labels(self.spec_connector_name(), self.spec_topic()).push(
                ("error_type"@, error_type@),
            ),
    {
        let mut v = self.labels();
        let ghost before = v@;
        v.push((<String as StringExecFns>::from_str("error_type"), <String as StringExecFns>::from_str(error_type)));
        assert(labels_view(v@) =~= labels_view(before).push(("error_type"@, error_type@)));
        v
    }
}

} // verus!
