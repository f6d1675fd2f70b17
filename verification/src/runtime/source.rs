//! Decisions of the source runtime (external system → Danube).

use vstd::prelude::*;
use vstd::string::*;

use crate::attributes::StringMap;
use crate::codec::{classify_encoding, encode_spec, encoding_of, has_fault, json_bytes, serialize_with_schema, Fault, PayloadEncoding};
use crate::config::{copy_string, ProducerConfig, SchemaConfig, SchemaMapping, VersionStrategy};
use crate::error::{prefixed, ConnectorError, ConnectorResult};
use crate::json::{encode_json, json_error_text};
use crate::message::SourceRecord;
use crate::offset::Offset;
use crate::text::{ascii_lower, lower_eq, lowercase_of, replace_slashes, slashes_to_dashes, to_lowercase};

verus! {

/// The schema configurations of topics, by topic.
pub type TopicSchemas = StringMap<SchemaConfig>;

/// The schema type a schema is registered with.
#[derive(Debug, Clone, Copy, PartialEq, Eq, Structural)]
pub enum RegistrySchemaKind {
    JsonSchema,
    String,
    Number,
    Bytes,
    Avro,
    Protobuf,
}

/// The registry schema type a configured schema type names, if supported.
pub open spec fn registry_kind_of(t: Seq<char>) -> Option<RegistrySchemaKind> {
    match encoding_of(t) {
        PayloadEncoding::Json => Some(RegistrySchemaKind::JsonSchema),
        PayloadEncoding::Text => Some(RegistrySchemaKind::String),
        PayloadEncoding::Number => Some(RegistrySchemaKind::Number),
        PayloadEncoding::Bytes => Some(RegistrySchemaKind::Bytes),
        PayloadEncoding::Avro => Some(RegistrySchemaKind::Avro),
        PayloadEncoding::Protobuf => Some(RegistrySchemaKind::Protobuf),
        PayloadEncoding::Other => None,
    }
}

/// Whether a schema type needs a schema definition file (primitive types do not).
pub open spec fn schema_file_needed(t: Seq<char>) -> bool {
    encoding_of(t) is Json || encoding_of(t) is Avro || encoding_of(t) is Protobuf
}

/// Whether the schema of a mapping must be read from its file.
pub fn schema_file_required(schema_type: &str) -> (b: bool)
    ensures
        b == schema_file_needed(schema_type@),
{
    match classify_encoding(schema_type) {
        PayloadEncoding::Json | PayloadEncoding::Avro | PayloadEncoding::Protobuf => true,
        _ => false,
    }
}

/// The registry schema type for a configured schema type, or a configuration
/// error naming the (lowercased) unsupported type.
pub fn registry_schema_kind(schema_type: &str) -> (r: ConnectorResult<RegistrySchemaKind>)
    ensures
        match registry_kind_of(schema_type@) {
            Some(k) => r == Ok::<RegistrySchemaKind, ConnectorError>(k),
            None => r matches Err(ConnectorError::Configuration(m)) && m@ == "Unsupported schema type: "@
                + lowercase_of(schema_type@),
        },
{
    match classify_encoding(schema_type) {
        PayloadEncoding::Json => Ok(RegistrySchemaKind::JsonSchema),
        PayloadEncoding::Text => Ok(RegistrySchemaKind::String),
        PayloadEncoding::Number => Ok(RegistrySchemaKind::Number),
        PayloadEncoding::Bytes => Ok(RegistrySchemaKind::Bytes),
        PayloadEncoding::Avro => Ok(RegistrySchemaKind::Avro),
        PayloadEncoding::Protobuf => Ok(RegistrySchemaKind::Protobuf),
        PayloadEncoding::Other => {
            let lower = to_lowercase(schema_type);
            Err(ConnectorError::Configuration(prefixed("Unsupported schema type: ", lower.as_str())))
        },
    }
}

/// Each supported schema type is registered with the registry type of the
/// same name, in any ASCII case: `json_schema` and `json` as JSON schema,
/// `string` as string, `number` as number, `bytes` as bytes, `avro` as Avro
/// and `protobuf` as Protobuf.
pub proof fn lemma_registry_kind_by_name(t: Seq<char>)
    ensures
        lower_eq(t, "json_schema"@) ==> registry_kind_of(t) == Some(RegistrySchemaKind::JsonSchema),
        lower_eq(t, "json"@) ==> registry_kind_of(t) == Some(RegistrySchemaKind::JsonSchema),
        lower_eq(t, "string"@) ==> registry_kind_of(t) == Some(RegistrySchemaKind::String),
        lower_eq(t, "number"@) ==> registry_kind_of(t) == Some(RegistrySchemaKind::Number),
        lower_eq(t, "bytes"@) ==> registry_kind_of(t) == Some(RegistrySchemaKind::Bytes),
        lower_eq(t, "avro"@) ==> registry_kind_of(t) == Some(RegistrySchemaKind::Avro),
        lower_eq(t, "protobuf"@) ==> registry_kind_of(t) == Some(RegistrySchemaKind::Protobuf),
{
    reveal_strlit("json_schema");
    reveal_strlit("json");
    reveal_strlit("string");
    reveal_strlit("number");
    reveal_strlit("bytes");
    reveal_strlit("avro");
    reveal_strlit("protobuf");
    if lower_eq(t, "json"@) && lower_eq(t, "avro"@) {
        assert(ascii_lower(t[0]) == "json"@[0]);
        assert(ascii_lower(t[0]) == "avro"@[0]);
    }
    if lower_eq(t, "string"@) && lower_eq(t, "number"@) {
        assert(ascii_lower(t[0]) == "string"@[0]);
        assert(ascii_lower(t[0]) == "number"@[0]);
    }
}

/// What `registry_schema_kind` gives for each supported schema type name, in
/// any ASCII case.
pub proof fn lemma_registry_schema_kind_by_name(t: &str, r: ConnectorResult<RegistrySchemaKind>)
    requires
        call_ensures(registry_schema_kind, (t,), r),
    ensures
        lower_eq(t@, "json_schema"@) || lower_eq(t@, "json"@) ==> r == Ok::<RegistrySchemaKind, ConnectorError>(RegistrySchemaKind::JsonSchema),
        lower_eq(t@, "string"@) ==> r == Ok::<RegistrySchemaKind, ConnectorError>(RegistrySchemaKind::String),
        lower_eq(t@, "number"@) ==> r == Ok::<RegistrySchemaKind, ConnectorError>(RegistrySchemaKind::Number),
        lower_eq(t@, "bytes"@) ==> r == Ok::<RegistrySchemaKind, ConnectorError>(RegistrySchemaKind::Bytes),
        lower_eq(t@, "avro"@) ==> r == Ok::<RegistrySchemaKind, ConnectorError>(RegistrySchemaKind::Avro),
        lower_eq(t@, "protobuf"@) ==> r == Ok::<RegistrySchemaKind, ConnectorError>(RegistrySchemaKind::Protobuf),
{
    lemma_registry_kind_by_name(t@);
}

/// What to do with a configured schema once the registry was asked for the
/// latest version of its subject.
#[derive(Debug, Clone, Copy, PartialEq, Eq, Structural)]
pub enum RegistrationAction {
    /// The subject exists: use it.
    UseExisting,
    /// Register the schema with this type.
    Register(RegistrySchemaKind),
}

/// Decides the registration of a configured schema.
///
/// `latest_found` tells whether the registry has a version of the subject,
/// and `lookup_error` is the text of its error otherwise. A found subject is
/// used. A missing one is registered when the mapping auto-registers (if its
/// type is supported), and is a configuration error otherwise.
pub fn registration_action(mapping: &SchemaMapping, latest_found: bool, lookup_error: &str) -> (r: ConnectorResult<RegistrationAction>)
    ensures
        latest_found ==> r == Ok::<RegistrationAction, ConnectorError>(RegistrationAction::UseExisting),
        !latest_found && mapping.auto_register ==> match registry_kind_of(mapping.schema_type@) {
            Some(k) => r == Ok::<RegistrationAction, ConnectorError>(RegistrationAction::Register(k)),
            None => r matches Err(ConnectorError::Configuration(m)) && m@ == "Unsupported schema type: "@
                + lowercase_of(mapping.schema_type@),
        },
        !latest_found && !mapping.auto_register ==> (r matches Err(ConnectorError::Configuration(m)) && m@
            == "Schema '"@ + mapping.subject@ + "' not found and auto_register=false: "@ + lookup_error@),
{
    if latest_found {
        return Ok(RegistrationAction::UseExisting);
    }
    if mapping.auto_register {
        let kind = registry_schema_kind(mapping.schema_type.as_str())?;
        Ok(RegistrationAction::Register(kind))
    } else {
        let m = <String as StringExecFns>::from_str("Schema '");
        let m = m.concat(mapping.subject.as_str());
        let m = m.concat("' not found and auto_register=false: ");
        let m = m.concat(lookup_error);
        Err(ConnectorError::Configuration(m))
    }
}

/// Stores the schema configuration of a mapping under its topic.
pub fn record_topic_schema(schemas: &mut TopicSchemas, mapping: &SchemaMapping)
    ensures
        exists|c: SchemaConfig|
            {
                &&& c.subject == mapping.subject
                &&& c.schema_type == mapping.schema_type
                &&& c.schema_file == mapping.schema_file
                &&& c.auto_register == mapping.auto_register
                &&& c.version_strategy == mapping.version_strategy
                &&& final(schemas).view() == old(schemas).view().insert(mapping.topic@, c)
            },
{
    let c = mapping.schema_config();
    schemas.insert(copy_string(&mapping.topic), c);
}

/// Refuses an empty list of producer configurations.
pub fn check_producer_configs(configs: &[ProducerConfig]) -> (r: ConnectorResult<()>)
    ensures
        configs@.len() == 0 ==> (r matches Err(ConnectorError::Configuration(m)) && m@
            == "No producer configurations provided by connector"@),
        configs@.len() > 0 ==> r is Ok,
{
    if configs.len() == 0 {
        Err(ConnectorError::config("No producer configurations provided by connector"))
    } else {
        Ok(())
    }
}

/// The schema subject a producer publishes with, and how it picks the version.
#[derive(Debug, Clone)]
pub struct SchemaBinding {
    pub subject: String,
    pub version_strategy: VersionStrategy,
}

/// How to create the producer of a topic.
#[derive(Debug, Clone)]
pub struct ProducerPlan {
    pub topic: String,
    /// `<connector name>-<topic with '/' replaced by '-'>`
    pub producer_name: String,
    /// The partition count, when the topic is partitioned
    pub partitions: Option<usize>,
    pub reliable_dispatch: bool,
    /// The schema of the topic, when one is configured for it
    pub schema: Option<SchemaBinding>,
}

/// The name of the producer a connector creates for a topic.
pub open spec fn producer_name_of(connector_name: Seq<char>, topic: Seq<char>) -> Seq<char> {
    connector_name + "-"@ + slashes_to_dashes(topic)
}

/// Plans the producer of a configured topic, with the schema configured for
/// that topic (by the schema mappings) if any.
pub fn producer_plan(connector_name: &str, config: &ProducerConfig, schemas: &TopicSchemas) -> (p: ProducerPlan)
    ensures
        p.topic == config.topic,
        p.producer_name@ == producer_name_of(connector_name@, config.topic@),
        p.partitions == (if config.partitions > 0 { Some(config.partitions) } else { None }),
        p.reliable_dispatch == config.reliable_dispatch,
        (p.schema is Some) == schemas.view().contains_key(config.topic@),
        p.schema matches Some(b) ==> b.subject == schemas.view()[config.topic@].subject
            && b.version_strategy == schemas.view()[config.topic@].version_strategy,
{
    let suffix = replace_slashes(config.topic.as_str());
    let name = prefixed(connector_name, "-").concat(suffix.as_str());
    let schema = match schemas.get(config.topic.as_str()) {
        Some(c) => Some(SchemaBinding { subject: copy_string(&c.subject), version_strategy: c.version_strategy }),
        None => None,
    };
    ProducerPlan {
        topic: copy_string(&config.topic),
        producer_name: name,
        partitions: if config.partitions > 0 { Some(config.partitions) } else { None },
        reliable_dispatch: config.reliable_dispatch,
        schema,
    }
}

/// The bytes published for a record: encoded with the schema type configured
/// for its topic, or as JSON when its topic has no schema.
pub fn prepare_payload(schemas: &TopicSchemas, record: &SourceRecord) -> (r: ConnectorResult<Vec<u8>>)
    ensures
        match (if schemas.view().contains_key(record.topic@) {
            encode_spec(record.payload, schemas.view()[record.topic@].schema_type@)
        } else {
            json_bytes(record.payload, "JSON serialization failed: "@)
        }) {
            Ok(b) => r matches Ok(x) && x@ == b,
            Err(f) => r matches Err(e) && has_fault(e, f),
        },
{
    match schemas.get(record.topic.as_str()) {
        Some(c) => serialize_with_schema(&record.payload, c.schema_type.as_str()),
        None => match encode_json(&record.payload) {
            Ok(b) => Ok(b),
            Err(e) => {
                let text = json_error_text(&e);
                let m = prefixed("JSON serialization failed: ", text.as_str());
                assert(m@.subrange(0, "JSON serialization failed: "@.len() as int) =~= "JSON serialization failed: "@);
                Err(ConnectorError::Serialization(m))
            },
        },
    }
}

/// The error when a record names a topic no producer was created for.
pub fn missing_producer_error(topic: &str) -> (e: ConnectorError)
    ensures
        e matches ConnectorError::Fatal { message, source: None } && message@ == "No producer found for topic: "@
            + topic@ + ". Ensure producer_configs() includes this topic."@,
{
    let m = prefixed("No producer found for topic: ", topic);
    let m = m.concat(". Ensure producer_configs() includes this topic.");
    ConnectorError::Fatal { message: m, source: None }
}

/// The error when publishing a record fails (the batch may be retried).
pub fn publish_failure(source: &str) -> (e: ConnectorError)
    ensures
        e matches ConnectorError::Retryable { message, source: Some(s) } && message@ == "Failed to publish batch"@
            && s@ == source@,
{
    ConnectorError::retryable_with_source("Failed to publish batch", source)
}

/// The offset committed for the record at position `index` of a published batch.
pub fn published_offset(topic: &str, index: usize) -> (o: Offset)
    ensures
        o.partition@ == topic@,
        o.value == index,
        o.metadata is None,
{
    Offset::new(topic, index as u64)
}

/// The offset committed for the record at position `index` of a published
/// batch: the offset its envelope carries, or else its place in the batch.
pub fn commit_offset(own: Option<Offset>, topic: &str, index: usize) -> (o: Offset)
    ensures
        own matches Some(x) ==> o == x,
        own is None ==> o.partition@ == topic@ && o.value == index && o.metadata is None,
{
    match own {
        Some(x) => x,
        None => published_offset(topic, index),
    }
}

/// What happened in the source runtime's polling loop.
#[derive(Debug)]
pub enum SourceLoopEvent {
    /// A poll returned this many records.
    Polled(usize),
    /// A poll failed.
    PollFailed,
    /// The polled batch was published; these are its offsets.
    Published(Vec<Offset>),
    /// Publishing the polled batch failed.
    PublishFailed,
}

/// What the source runtime does next.
#[derive(Debug)]
pub enum SourceLoopAction {
    /// Publish the polled records.
    Publish,
    /// Sleep this many milliseconds, then poll again.
    Sleep { ms: u64 },
    /// Commit these offsets, then poll again.
    Commit(Vec<Offset>),
    /// Report the failed publish (nothing is committed), then poll again.
    ReportPublishFailure,
    /// Leave the loop.
    Stop,
}

/// The pause after a failed poll, in milliseconds.
pub open spec fn poll_error_pause_ms() -> u64 {
    1000
}

/// One step of the polling loop: stop on shutdown; publish a non-empty poll
/// and sleep the poll interval after an empty one; pause a second after a
/// failed poll; commit exactly the offsets of a published batch, and nothing
/// after a failed publish.
pub fn source_loop_step(poll_interval_ms: u64, shutdown: bool, event: SourceLoopEvent) -> (a: SourceLoopAction)
    ensures
        shutdown ==> a is Stop,
        !shutdown ==> match event {
            SourceLoopEvent::Polled(n) => if n > 0 {
                a is Publish
            } else {
                a == (SourceLoopAction::Sleep { ms: poll_interval_ms })
            },
            SourceLoopEvent::PollFailed => a == (SourceLoopAction::Sleep { ms: poll_error_pause_ms() }),
            SourceLoopEvent::Published(o) => a matches SourceLoopAction::Commit(c) && c@ == o@,
            SourceLoopEvent::PublishFailed => a is ReportPublishFailure,
        },
{
    if shutdown {
        return SourceLoopAction::Stop;
    }
    match event {
        SourceLoopEvent::Polled(n) => if n > 0 {
            SourceLoopAction::Publish
        } else {
            SourceLoopAction::Sleep { ms: poll_interval_ms }
        },
        SourceLoopEvent::PollFailed => SourceLoopAction::Sleep { ms: 1000 },
        SourceLoopEvent::Published(o) => SourceLoopAction::Commit(o),
        SourceLoopEvent::PublishFailed => SourceLoopAction::ReportPublishFailure,
    }
}

} // verus!
