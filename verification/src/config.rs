//! Configuration for connectors.

use std::path::PathBuf;
use vstd::prelude::*;
use vstd::string::*;

use crate::error::{ConnectorError, ConnectorResult};
use crate::retry::{RetryConfig, RetryStrategy};

verus! {

#[verifier::external_type_specification]
#[verifier::external_body]
pub struct ExPathBuf(PathBuf);

/// `PathBuf::clone` gives back an equal path.
pub assume_specification[ <PathBuf as Clone>::clone ](p: &PathBuf) -> (r: PathBuf)
    ensures
        r == *p,
;

/// Main configuration for connectors.
///
/// The service URL and connector name are mandatory; retry, processing and
/// schema settings have defaults.
#[derive(Debug, Clone)]
pub struct ConnectorConfig {
    /// Danube broker service URL (from DANUBE_SERVICE_URL)
    pub danube_service_url: String,
    /// Connector name (from CONNECTOR_NAME, must be unique)
    pub connector_name: String,
    /// Retry settings
    pub retry: RetrySettings,
    /// Processing and runtime settings
    pub processing: ProcessingSettings,
    /// Schema mappings for topics (source connectors using the schema registry)
    pub schemas: Vec<SchemaMapping>,
}

/// Retry configuration settings.
#[derive(Debug, Clone, Copy)]
pub struct RetrySettings {
    /// Maximum number of retries for failed operations
    pub max_retries: u32,
    /// Base backoff duration in milliseconds
    pub retry_backoff_ms: u64,
    /// Maximum backoff duration in milliseconds
    pub max_backoff_ms: u64,
}

/// Processing and runtime configuration settings.
#[derive(Debug, Clone)]
pub struct ProcessingSettings {
    /// Batch size for batch processing
    pub batch_size: usize,
    /// Batch timeout in milliseconds
    pub batch_timeout_ms: u64,
    /// Poll interval in milliseconds for source connectors
    pub poll_interval_ms: u64,
    /// Metrics export port
    pub metrics_port: u16,
    /// Log level
    pub log_level: String,
}

/// How a producer picks the version of its schema subject.
#[derive(Debug, Clone, Copy, PartialEq, Eq, Structural)]
pub enum VersionStrategy {
    /// Always the latest version
    Latest,
    /// Exactly this version
    Pinned(u32),
    /// This version or a later one
    Minimum(u32),
}

/// Schema mapping configuration: maps a topic to its schema definition.
#[derive(Debug, Clone)]
pub struct SchemaMapping {
    /// Danube topic name (format: /{namespace}/{topic_name})
    pub topic: String,
    /// Schema subject name in the registry
    pub subject: String,
    /// Schema type (e.g., "json_schema", "avro", "protobuf")
    pub schema_type: String,
    /// Path to schema definition file
    pub schema_file: PathBuf,
    /// Auto-register schema on startup if it doesn't exist
    pub auto_register: bool,
    /// Version strategy for this schema
    pub version_strategy: VersionStrategy,
}

/// The schema a producer publishes with.
#[derive(Debug, Clone)]
pub struct SchemaConfig {
    /// Schema subject name in the registry
    pub subject: String,
    /// Schema type (e.g., "json_schema", "string", "bytes")
    pub schema_type: String,
    /// Path to schema definition file
    pub schema_file: PathBuf,
    /// Auto-register schema on startup if it doesn't exist
    pub auto_register: bool,
    /// Version strategy for this schema
    pub version_strategy: VersionStrategy,
}

/// Subscription type for configuration.
#[derive(Debug, Clone, Copy, PartialEq, Eq, Structural)]
pub enum SubscriptionType {
    Exclusive,
    Shared,
    FailOver,
}

/// Configuration of a consumer for one topic (sink connectors).
#[derive(Debug, Clone)]
pub struct ConsumerConfig {
    /// Danube topic to consume from
    pub topic: String,
    /// Consumer name
    pub consumer_name: String,
    /// Subscription name
    pub subscription: String,
    /// Subscription type
    pub subscription_type: SubscriptionType,
    /// Schema subject that consumed messages must carry, if any
    pub expected_schema_subject: Option<String>,
}

/// Configuration of a producer for one topic (source connectors).
#[derive(Debug, Clone)]
pub struct ProducerConfig {
    /// Danube topic name (format: /{namespace}/{topic_name})
    pub topic: String,
    /// Number of partitions (0 = non-partitioned)
    pub partitions: usize,
    /// Use reliable dispatch (WAL + Cloud persistence)
    pub reliable_dispatch: bool,
    /// Optional schema configuration
    pub schema_config: Option<SchemaConfig>,
}

/// Copies a string; the copy has the same contents.
pub fn copy_string(s: &String) -> (r: String)
    ensures
        r == *s,
{
    s.clone()
}

/// Copies an optional string.
pub fn copy_opt_string(s: &Option<String>) -> (r: Option<String>)
    ensures
        r == *s,
{
    match s {
        Some(x) => Some(x.clone()),
        None => None,
    }
}

/// Default maximum number of retries.
pub fn default_max_retries() -> (r: u32)
    ensures
        r == 3,
{
    3
}

/// Default base backoff, in milliseconds.
pub fn default_retry_backoff_ms() -> (r: u64)
    ensures
        r == 1000,
{
    1000
}

/// Default maximum backoff, in milliseconds.
pub fn default_max_backoff_ms() -> (r: u64)
    ensures
        r == 30000,
{
    30000
}

/// Default batch size.
pub fn default_batch_size() -> (r: usize)
    ensures
        r == 1000,
{
    1000
}

/// Default batch timeout, in milliseconds.
pub fn default_batch_timeout_ms() -> (r: u64)
    ensures
        r == 1000,
{
    1000
}

/// Default poll interval of source connectors, in milliseconds.
pub fn default_poll_interval_ms() -> (r: u64)
    ensures
        r == 100,
{
    100
}

/// Default metrics export port.
pub fn default_metrics_port() -> (r: u16)
    ensures
        r == 9090,
{
    9090
}

/// Default log level.
pub fn default_log_level() -> (r: String)
    ensures
        r@ == "info"@,
{
    <String as StringExecFns>::from_str("info")
}

/// How often the sink runtime checks the connector's health, in milliseconds.
pub fn default_health_check_interval_ms() -> (r: u64)
    ensures
        r == 30000,
{
    30000
}

/// Consecutive failed health checks after which the connector is unhealthy.
pub fn default_health_check_failure_threshold() -> (r: usize)
    ensures
        r == 3,
{
    3
}

/// By default, schemas are registered when missing.
pub fn default_auto_register() -> (r: bool)
    ensures
        r,
{
    true
}

impl Default for RetrySettings {
    fn default() -> (s: Self)
        ensures
            s.max_retries == 3,
            s.retry_backoff_ms == 1000,
            s.max_backoff_ms == 30000,
    {
        RetrySettings {
            max_retries: default_max_retries(),
            retry_backoff_ms: default_retry_backoff_ms(),
            max_backoff_ms: default_max_backoff_ms(),
        }
    }
}

impl Default for ProcessingSettings {
    fn default() -> (s: Self)
        ensures
            s.batch_size == 1000,
            s.batch_timeout_ms == 1000,
            s.poll_interval_ms == 100,
            s.metrics_port == 9090,
            s.log_level@ == "info"@,
    {
        ProcessingSettings {
            batch_size: default_batch_size(),
            batch_timeout_ms: default_batch_timeout_ms(),
            poll_interval_ms: default_poll_interval_ms(),
            metrics_port: default_metrics_port(),
            log_level: default_log_level(),
        }
    }
}

impl Default for VersionStrategy {
    fn default() -> (v: Self)
        ensures
            v == VersionStrategy::Latest,
    {
        VersionStrategy::Latest
    }
}

impl Default for ConnectorConfig {
    fn default() -> (c: Self)
        ensures
            c.danube_service_url@ == "http://localhost:6650"@,
            c.connector_name@ == "default-connector"@,
            c.retry.max_retries == 3,
            c.retry.retry_backoff_ms == 1000,
            c.retry.max_backoff_ms == 30000,
            c.processing.batch_size == 1000,
            c.processing.batch_timeout_ms == 1000,
            c.processing.poll_interval_ms == 100,
            c.processing.metrics_port == 9090,
            c.processing.log_level@ == "info"@,
            c.schemas@.len() == 0,
    {
        ConnectorConfig {
            danube_service_url: <String as StringExecFns>::from_str("http://localhost:6650"),
            connector_name: <String as StringExecFns>::from_str("default-connector"),
            retry: RetrySettings::default(),
            processing: ProcessingSettings::default(),
            schemas: Vec::new(),
        }
    }
}

/// The first configuration problem found, if any.
pub open spec fn validation_problem(c: ConnectorConfig) -> Option<Seq<char>> {
    if c.danube_service_url@.len() == 0 {
        Some("danube_service_url cannot be empty"@)
    } else if c.connector_name@.len() == 0 {
        Some("connector_name cannot be empty"@)
    } else if c.retry.max_retries > 100 {
        Some("max_retries too high (max 100)"@)
    } else if c.processing.batch_size == 0 {
        Some("batch_size must be > 0"@)
    } else {
        None
    }
}

impl ConnectorConfig {
    /// Build the configuration from the values of the mandatory environment
    /// variables (`DANUBE_SERVICE_URL`, `CONNECTOR_NAME`), `None` when unset.
    /// All other settings take their defaults.
    pub fn from_env_values(danube_service_url: Option<String>, connector_name: Option<String>) -> (r: ConnectorResult<Self>)
        ensures
            danube_service_url is None ==> (r matches Err(ConnectorError::Configuration(m)) && m@ == "DANUBE_SERVICE_URL is required"@),
            danube_service_url is Some && connector_name is None ==> (r matches Err(ConnectorError::Configuration(m)) && m@ == "CONNECTOR_NAME is required"@),
            r matches Ok(c) ==> {
                &&& danube_service_url == Some(c.danube_service_url)
                &&& connector_name == Some(c.connector_name)
                &&& c.retry.max_retries == 3
                &&& c.retry.retry_backoff_ms == 1000
                &&& c.retry.max_backoff_ms == 30000
                &&& c.processing.batch_size == 1000
                &&& c.processing.batch_timeout_ms == 1000
                &&& c.processing.poll_interval_ms == 100
                &&& c.processing.metrics_port == 9090
                &&& c.processing.log_level@ == "info"@
                &&& c.schemas@.len() == 0
            },
            (r is Ok) == (danube_service_url is Some && connector_name is Some),
    {
        let url = match danube_service_url {
            Some(u) => u,
            None => return Err(ConnectorError::config("DANUBE_SERVICE_URL is required")),
        };
        let name = match connector_name {
            Some(n) => n,
            None => return Err(ConnectorError::config("CONNECTOR_NAME is required")),
        };
        Ok(ConnectorConfig {
            danube_service_url: url,
            connector_name: name,
            retry: RetrySettings::default(),
            processing: ProcessingSettings::default(),
            schemas: Vec::new(),
        })
    }

    /// Override the mandatory fields with the values of their environment
    /// variables, where set. Nothing else changes.
    pub fn apply_env_values(&mut self, danube_service_url: Option<String>, connector_name: Option<String>)
        ensures
            final(self).danube_service_url == (match danube_service_url {
                Some(u) => u,
                None => old(self).danube_service_url,
            }),
            final(self).connector_name == (match connector_name {
                Some(n) => n,
                None => old(self).connector_name,
            }),
            final(self).retry == old(self).retry,
            final(self).processing == old(self).processing,
            final(self).schemas == old(self).schemas,
    {
        if let Some(u) = danube_service_url {
            self.danube_service_url = u;
        }
        if let Some(n) = connector_name {
            self.connector_name = n;
        }
    }

    /// Validate the configuration: the URL and name must be non-empty, at
    /// most 100 retries, and a non-zero batch size.
    pub fn validate(&self) -> (r: ConnectorResult<()>)
        ensures
            match validation_problem(*self) {
                None => r is Ok,
                Some(msg) => r matches Err(ConnectorError::Configuration(m)) && m@ == msg,
            },
    {
        if self.danube_service_url.as_str().is_empty() {
            return Err(ConnectorError::config("danube_service_url cannot be empty"));
        }
        if self.connector_name.as_str().is_empty() {
            return Err(ConnectorError::config("connector_name cannot be empty"));
        }
        if self.retry.max_retries > 100 {
            return Err(ConnectorError::config("max_retries too high (max 100)"));
        }
        if self.processing.batch_size == 0 {
            return Err(ConnectorError::config("batch_size must be > 0"));
        }
        Ok(())
    }

    /// The retry strategy these settings describe (doubling backoff with jitter).
    pub fn retry_strategy(&self) -> (s: RetryStrategy)
        ensures
            s.config.max_retries == self.retry.max_retries,
            s.config.base_backoff_ms == self.retry.retry_backoff_ms,
            s.config.max_backoff_ms == self.retry.max_backoff_ms,
            s.config.multiplier == 2,
            s.config.jitter,
    {
        RetryStrategy::new(
            RetryConfig::new(
                self.retry.max_retries,
                self.retry.retry_backoff_ms,
                self.retry.max_backoff_ms,
            ),
        )
    }
}

impl SchemaConfig {
    /// A copy of this configuration.
    pub fn duplicate(&self) -> (c: Self)
        ensures
            c == *self,
    {
        SchemaConfig {
            subject: copy_string(&self.subject),
            schema_type: copy_string(&self.schema_type),
            schema_file: self.schema_file.clone(),
            auto_register: self.auto_register,
            version_strategy: self.version_strategy,
        }
    }
}

impl SchemaMapping {
    /// The schema configuration a producer of this mapping's topic uses.
    pub fn schema_config(&self) -> (c: SchemaConfig)
        ensures
            c.subject == self.subject,
            c.schema_type == self.schema_type,
            c.schema_file == self.schema_file,
            c.auto_register == self.auto_register,
            c.version_strategy == self.version_strategy,
    {
        SchemaConfig {
            subject: copy_string(&self.subject),
            schema_type: copy_string(&self.schema_type),
            schema_file: self.schema_file.clone(),
            auto_register: self.auto_register,
            version_strategy: self.version_strategy,
        }
    }
}

impl ProducerConfig {
    /// A producer configuration without a schema.
    pub fn new(topic: &str, partitions: usize, reliable_dispatch: bool) -> (c: Self)
        ensures
            c.topic@ == topic@,
            c.partitions == partitions,
            c.reliable_dispatch == reliable_dispatch,
            c.schema_config is None,
    {
        ProducerConfig {
            topic: <String as StringExecFns>::from_str(topic),
            partitions,
            reliable_dispatch,
            schema_config: None,
        }
    }
}

} // verus!
