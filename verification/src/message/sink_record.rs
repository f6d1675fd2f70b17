//! SinkRecord - messages from Danube to external systems.

use vstd::prelude::*;
use vstd::string::*;

use crate::attributes::Attributes;
use crate::codec::{decode_payload, decode_spec, encode_spec, encoding_of, has_fault, starts_with, Fault, PayloadEncoding};
use crate::error::{prefixed, ConnectorError, ConnectorResult};
use crate::json::{encode_json, json_encodable, json_encoding, json_error_display, json_error_text};
use crate::message::context::{RecordContext, RoutingContext};
use crate::schema::SchemaInfo;

verus! {

/// Calls `serde_json::from_value` to read a typed value out of a JSON value.
#[verifier::external_body]
fn from_json_value<T: serde::de::DeserializeOwned>(v: serde_json::Value) -> Result<T, serde_json::Error> {
    serde_json::from_value(v)
}

/// `r` is a result `serde_json::from_value::<T>` gives for `payload`.
pub closed spec fn from_value_result<T: serde::de::DeserializeOwned>(
    payload: serde_json::Value,
    r: Result<T, serde_json::Error>,
) -> bool {
    call_ensures(from_json_value::<T>, (payload,), r)
}

/// What the library reads of a message consumed from a Danube topic.
#[derive(Debug)]
pub struct ConsumedMessage {
    /// The message bytes
    pub payload: Vec<u8>,
    /// User-defined attributes from the producer
    pub attributes: Attributes,
    /// Publish timestamp (microseconds since epoch)
    pub publish_time: u64,
    /// Name of the producer that published it
    pub producer_name: String,
    /// Schema ID, when the message was published with a schema
    pub schema_id: Option<u64>,
    /// The topic named in the message ID (a partition topic for partitioned topics)
    pub topic_name: String,
}

/// Danube-specific metadata for observability and debugging.
#[derive(Debug, Clone)]
pub struct DanubeMetadata {
    /// Topic name (logical topic from subscription)
    pub topic: String,
    /// Publish timestamp (microseconds since epoch)
    pub publish_time: u64,
    /// Producer name (for debugging)
    pub producer_name: String,
}

/// Record passed to sink connectors (from Danube → External System).
///
/// The payload is already decoded into a JSON value according to the
/// message's schema.
#[derive(Debug, Clone)]
pub struct SinkRecord {
    payload: serde_json::Value,
    attributes: Attributes,
    danube_metadata: DanubeMetadata,
    partition: Option<String>,
    schema_info: Option<SchemaInfo>,
}

impl SinkRecord {
    pub closed spec fn spec_payload(&self) -> serde_json::Value {
        self.payload
    }

    pub closed spec fn spec_attributes(&self) -> Attributes {
        self.attributes
    }

    pub closed spec fn spec_metadata(&self) -> DanubeMetadata {
        self.danube_metadata
    }

    pub closed spec fn spec_partition(&self) -> Option<String> {
        self.partition
    }

    pub closed spec fn spec_schema(&self) -> Option<SchemaInfo> {
        self.schema_info
    }

    /// Build the record for a consumed message.
    ///
    /// `logical_topic` is the topic of the subscription (not the partition
    /// topic of the message ID), `schema` the schema the registry gave for the
    /// message's schema ID (if any), and `expected` the subject the consumer
    /// expects. The payload is decoded as `decode_payload` does.
    pub fn from_message(
        message: ConsumedMessage,
        logical_topic: &str,
        schema: Option<SchemaInfo>,
        expected: &Option<String>,
    ) -> (r: ConnectorResult<Self>)
        ensures
            match decode_spec(message.payload@, schema, *expected) {
                Ok(v) => r matches Ok(rec) && {
                    &&& rec.spec_payload() == v
                    &&& rec.spec_schema() == schema
                    &&& rec.spec_attributes() == message.attributes
                    &&& rec.spec_metadata().topic@ == logical_topic@
                    &&& rec.spec_metadata().publish_time == message.publish_time
                    &&& rec.spec_metadata().producer_name == message.producer_name
                    &&& rec.spec_partition() is None
                },
                Err(f) => r matches Err(e) && has_fault(e, f),
            },
            r matches Ok(rec) ==> (rec.spec_schema() matches Some(s) ==> ((encoding_of(s.schema_type@) is Text
                || encoding_of(s.schema_type@) is Bytes) ==> encode_spec(rec.spec_payload(), s.schema_type@)
                == Ok::<Seq<u8>, Fault>(message.payload@))),
    {
        let ConsumedMessage { payload, attributes, publish_time, producer_name, schema_id: _, topic_name: _ } = message;
        let (value, schema_info) = decode_payload(payload.as_slice(), schema, expected)?;
        Ok(SinkRecord {
            payload: value,
            attributes,
            danube_metadata: DanubeMetadata {
                topic: <String as StringExecFns>::from_str(logical_topic),
                publish_time,
                producer_name,
            },
            partition: None,
            schema_info,
        })
    }

    /// Get the payload as a reference.
    pub fn payload(&self) -> (p: &serde_json::Value)
        ensures
            *p == self.spec_payload(),
    {
        &self.payload
    }

    /// Deserialize the payload to a specific type.
    ///
    /// On failure the error is invalid data carrying the payload as JSON
    /// bytes (empty if it cannot be written).
    pub fn as_type<T: serde::de::DeserializeOwned>(&self) -> (r: ConnectorResult<T>)
        ensures
            r matches Err(e) ==> (e matches ConnectorError::InvalidData { message, payload } && starts_with(
                message@,
                "Failed to deserialize to target type: "@,
            ) && payload@ == (if json_encodable(self.spec_payload()) {
                json_encoding(self.spec_payload())
            } else {
                Seq::empty()
            })),
            r matches Ok(t) ==> from_value_result::<T>(self.spec_payload(), Ok(t)),
            r matches Err(e) ==> exists|je: serde_json::Error|
                #[trigger] from_value_result::<T>(self.spec_payload(), Err(je)) && (e matches ConnectorError::InvalidData {
                    message,
                    ..
                } && message@ == "Failed to deserialize to target type: "@ + json_error_display(je)),
    {
        let read = from_json_value::<T>(self.payload.clone());
        assert(from_value_result::<T>(self.spec_payload(), read));
        match read {
            Ok(t) => Ok(t),
            Err(e) => {
                let text = json_error_text(&e);
                let message = prefixed("Failed to deserialize to target type: ", text.as_str());
                assert(message@.subrange(0, "Failed to deserialize to target type: "@.len() as int)
                    =~= "Failed to deserialize to target type: "@);
                let bytes = match encode_json(&self.payload) {
                    Ok(b) => b,
                    Err(_) => Vec::new(),
                };
                Err(ConnectorError::InvalidData { message, payload: bytes })
            },
        }
    }

    /// Get schema information for this message.
    pub fn schema(&self) -> (s: Option<&SchemaInfo>)
        ensures
            (s is Some) == (self.spec_schema() is Some),
            s matches Some(x) ==> *x == self.spec_schema()->0,
    {
        match &self.schema_info {
            Some(x) => Some(x),
            None => None,
        }
    }

    /// Access message attributes (user-defined properties).
    pub fn attributes(&self) -> (a: &Attributes)
        ensures
            *a == self.spec_attributes(),
    {
        &self.attributes
    }

    /// Get a specific attribute value.
    pub fn get_attribute(&self, key: &str) -> (v: Option<&str>)
        ensures
            (v is Some) == self.spec_attributes().view().contains_key(key@),
            v matches Some(s) ==> s@ == self.spec_attributes().view()[key@]@,
    {
        match self.attributes.get(key) {
            Some(s) => Some(s.as_str()),
            None => None,
        }
    }

    /// Check if an attribute exists.
    pub fn has_attribute(&self, key: &str) -> (b: bool)
        ensures
            b == self.spec_attributes().view().contains_key(key@),
    {
        self.attributes.contains_key(key)
    }

    /// Get the topic name (logical topic from subscription).
    pub fn topic(&self) -> (t: &str)
        ensures
            t@ == self.spec_metadata().topic@,
    {
        self.danube_metadata.topic.as_str()
    }

    /// Get the publish timestamp (microseconds since epoch).
    pub fn publish_time(&self) -> (t: u64)
        ensures
            t == self.spec_metadata().publish_time,
    {
        self.danube_metadata.publish_time
    }

    /// Get the producer name.
    pub fn producer_name(&self) -> (n: &str)
        ensures
            n@ == self.spec_metadata().producer_name@,
    {
        self.danube_metadata.producer_name.as_str()
    }

    /// Get the partition of the record, if known.
    pub fn partition(&self) -> (p: Option<&str>)
        ensures
            (p is Some) == (self.spec_partition() is Some),
            p matches Some(s) ==> s@ == self.spec_partition()->0@,
    {
        match &self.partition {
            Some(s) => Some(s.as_str()),
            None => None,
        }
    }

    /// The routing context of this record (it has no routing key).
    pub fn routing_context(&self) -> (c: RoutingContext<'_>)
        ensures
            c.spec_topic()@ == self.spec_metadata().topic@,
            c.spec_key() is None,
            (c.spec_partition() is Some) == (self.spec_partition() is Some),
            *c.spec_attributes() == self.spec_attributes(),
    {
        RoutingContext::new(self.topic(), None, self.partition(), &self.attributes)
    }

    /// The record context of this record: routing, publish time, producer
    /// name and schema.
    pub fn context(&self) -> (c: RecordContext<'_>)
        ensures
            c.spec_routing().spec_topic()@ == self.spec_metadata().topic@,
            c.spec_publish_time() == Some(self.spec_metadata().publish_time),
            c.spec_producer_name() matches Some(n) && n@ == self.spec_metadata().producer_name@,
            (c.spec_schema() is Some) == (self.spec_schema() is Some),
    {
        RecordContext::new(
            self.routing_context(),
            Some(self.publish_time()),
            Some(self.producer_name()),
            self.schema(),
        )
    }
}

/// `as_type` reads the payload with `serde_json::from_value`: it succeeds
/// exactly with a value `from_value` reads from the record's payload, and it
/// fails only when `from_value` fails, reporting that error's text.
pub proof fn lemma_as_type_reads_from_value<T: serde::de::DeserializeOwned>(rec: SinkRecord, r: ConnectorResult<T>)
    requires
        call_ensures(SinkRecord::as_type::<T>, (&rec,), r),
    ensures
        r matches Ok(t) ==> from_value_result::<T>(rec.spec_payload(), Ok(t)),
        r is Err ==> exists|je: serde_json::Error| #[trigger] from_value_result::<T>(rec.spec_payload(), Err(je)),
{
}

} // verus!
