//! SourceRecord - messages from external systems to Danube.

use vstd::prelude::*;
use vstd::string::*;
use vstd::utf8::*;

use crate::attributes::Attributes;
use crate::codec::{encode_spec, Fault};
use crate::error::{ConnectorError, ConnectorResult};
use crate::json::{json_error_display, json_error_text, json_string, json_string_of};
use crate::message::context::{RecordContext, RoutingContext};
use crate::offset::Offset;

verus! {

/// Calls `serde_json::to_value` on a serializable value.
#[verifier::external_body]
fn to_json_value<T: serde::Serialize>(data: T) -> Result<serde_json::Value, serde_json::Error> {
    serde_json::to_value(data)
}

/// `r` is a result `serde_json::to_value` gives for `data`.
pub closed spec fn to_value_result<T: serde::Serialize>(data: T, r: Result<serde_json::Value, serde_json::Error>) -> bool {
    call_ensures(to_json_value::<T>, (data,), r)
}

/// Record passed from source connectors (External System → Danube).
///
/// Source connectors emit typed data as JSON values; the runtime serializes
/// them according to the topic's schema before publishing.
#[derive(Debug, Clone)]
pub struct SourceRecord {
    /// The topic to publish to
    pub topic: String,
    /// The message payload (typed data, not bytes)
    pub payload: serde_json::Value,
    /// Message attributes/headers
    pub attributes: Attributes,
    /// Optional routing key for partitioned topics
    pub key: Option<String>,
}

impl SourceRecord {
    /// Create a new SourceRecord with a typed payload, no attributes and no key.
    pub fn new(topic: &str, payload: serde_json::Value) -> (r: Self)
        ensures
            r.topic@ == topic@,
            r.payload == payload,
            r.attributes.view() == Map::<Seq<char>, String>::empty(),
            r.key is None,
    {
        SourceRecord {
            topic: <String as StringExecFns>::from_str(topic),
            payload,
            attributes: Attributes::new(),
            key: None,
        }
    }

    /// Create a SourceRecord from a string payload (a JSON string).
    ///
    /// Published under a `string` schema, it carries exactly the UTF-8 bytes
    /// of the text.
    pub fn from_string(topic: &str, payload: &str) -> (r: Self)
        ensures
            r.topic@ == topic@,
            r.payload == json_string_of(payload@),
            r.attributes.view() == Map::<Seq<char>, String>::empty(),
            r.key is None,
            encode_spec(r.payload, "string"@) == Ok::<Seq<u8>, Fault>(encode_utf8(payload@)),
    {
        proof {
            reveal_strlit("string");
            reveal_strlit("json_schema");
            reveal_strlit("json");
            assert(!crate::text::lower_eq("string"@, "json_schema"@));
            assert(!crate::text::lower_eq("string"@, "json"@));
            assert(crate::text::lower_eq("string"@, "string"@));
        }
        let v = json_string(<String as StringExecFns>::from_str(payload));
        SourceRecord::new(topic, v)
    }

    /// Create a SourceRecord from any JSON-serializable value.
    pub fn from_json<T: serde::Serialize>(topic: &str, data: T) -> (r: ConnectorResult<Self>)
        ensures
            r matches Ok(rec) ==> rec.topic@ == topic@ && rec.key is None
                && rec.attributes.view() == Map::<Seq<char>, String>::empty(),
            r matches Err(e) ==> e is Serialization,
            r matches Ok(rec) ==> to_value_result::<T>(data, Ok(rec.payload)),
            r matches Err(e) ==> exists|je: serde_json::Error|
                #[trigger] to_value_result::<T>(data, Err(je)) && (e matches ConnectorError::Serialization(m)
                    && m@ == json_error_display(je)),
    {
        let ghost d = data;
        let value = to_json_value(data);
        assert(to_value_result::<T>(d, value));
        match value {
            Ok(v) => Ok(SourceRecord::new(topic, v)),
            Err(e) => Err(ConnectorError::Serialization(json_error_text(&e))),
        }
    }

    /// Add an attribute (replacing any value under the same key).
    pub fn with_attribute(self, key: &str, value: &str) -> (r: Self)
        ensures
            r.topic == self.topic,
            r.payload == self.payload,
            r.key == self.key,
            exists|v: String|
                v@ == value@ && r.attributes.view() == self.attributes.view().insert(key@, v),
    {
        let mut rec = self;
        let v = <String as StringExecFns>::from_str(value);
        let ghost gv = v;
        rec.attributes.insert(<String as StringExecFns>::from_str(key), v);
        rec
    }

    /// Add multiple attributes (their values win over existing ones).
    pub fn with_attributes(self, attrs: Attributes) -> (r: Self)
        ensures
            r.topic == self.topic,
            r.payload == self.payload,
            r.key == self.key,
            r.attributes.view() == self.attributes.view().union_prefer_right(attrs.view()),
    {
        let mut rec = self;
        rec.attributes.extend(attrs);
        rec
    }

    /// Set the routing key for partitioned topics.
    pub fn with_key(self, key: &str) -> (r: Self)
        ensures
            r.topic == self.topic,
            r.payload == self.payload,
            r.attributes == self.attributes,
            r.key matches Some(k) && k@ == key@,
    {
        let mut rec = self;
        rec.key = Some(<String as StringExecFns>::from_str(key));
        rec
    }

    /// Get the payload as a reference.
    pub fn payload(&self) -> (p: &serde_json::Value)
        ensures
            *p == self.payload,
    {
        &self.payload
    }

    /// Get the destination topic.
    pub fn topic(&self) -> (t: &str)
        ensures
            t@ == self.topic@,
    {
        self.topic.as_str()
    }

    /// Get the routing key, if any.
    pub fn key(&self) -> (k: Option<&str>)
        ensures
            (k is Some) == (self.key is Some),
            k matches Some(s) ==> s@ == self.key->0@,
    {
        match &self.key {
            Some(k) => Some(k.as_str()),
            None => None,
        }
    }

    /// Get the attributes.
    pub fn attributes(&self) -> (a: &Attributes)
        ensures
            *a == self.attributes,
    {
        &self.attributes
    }

    /// The routing context of this record (no partition).
    pub fn routing_context(&self) -> (c: RoutingContext<'_>)
        ensures
            c.spec_topic()@ == self.topic@,
            (c.spec_key() is Some) == (self.key is Some),
            c.spec_key() matches Some(s) ==> s@ == self.key->0@,
            c.spec_partition() is None,
            *c.spec_attributes() == self.attributes,
    {
        RoutingContext::new(self.topic(), self.key(), None, &self.attributes)
    }

    /// The record context of this record: its routing context, without
    /// publish time, producer or schema.
    pub fn context(&self) -> (c: RecordContext<'_>)
        ensures
            c.spec_routing().spec_topic()@ == self.topic@,
            (c.spec_routing().spec_key() is Some) == (self.key is Some),
            c.spec_routing().spec_key() matches Some(s) ==> s@ == self.key->0@,
            c.spec_routing().spec_partition() is None,
            *c.spec_routing().spec_attributes() == self.attributes,
            c.spec_publish_time() is None,
            c.spec_producer_name() is None,
            c.spec_schema() is None,
    {
        RecordContext::new(self.routing_context(), None, None, None)
    }
}

/// A source record together with the checkpoint it advances, if any.
#[derive(Debug, Clone)]
pub struct SourceEnvelope {
    record: SourceRecord,
    offset: Option<Offset>,
}

impl SourceEnvelope {
    pub closed spec fn spec_record(&self) -> SourceRecord {
        self.record
    }

    pub closed spec fn spec_offset(&self) -> Option<Offset> {
        self.offset
    }

    /// The envelope of a record without an offset.
    pub closed spec fn spec_wrap(record: SourceRecord) -> SourceEnvelope {
        SourceEnvelope { record, offset: None }
    }

    /// Emit a record with no offset.
    pub fn new(record: SourceRecord) -> (e: Self)
        ensures
            e.spec_record() == record,
            e.spec_offset() is None,
            e == SourceEnvelope::spec_wrap(record),
    {
        SourceEnvelope { record, offset: None }
    }

    /// Emit a record plus checkpoint data.
    pub fn with_offset(record: SourceRecord, offset: Offset) -> (e: Self)
        ensures
            e.spec_record() == record,
            e.spec_offset() == Some(offset),
    {
        SourceEnvelope { record, offset: Some(offset) }
    }

    /// The record.
    pub fn record(&self) -> (r: &SourceRecord)
        ensures
            *r == self.spec_record(),
    {
        &self.record
    }

    /// The offset, if any.
    pub fn offset(&self) -> (o: Option<&Offset>)
        ensures
            (o is Some) == (self.spec_offset() is Some),
            o matches Some(x) ==> *x == self.spec_offset()->0,
    {
        match &self.offset {
            Some(o) => Some(o),
            None => None,
        }
    }

    /// Split into the record and the offset.
    pub fn into_parts(self) -> (p: (SourceRecord, Option<Offset>))
        ensures
            p.0 == self.spec_record(),
            p.1 == self.spec_offset(),
    {
        (self.record, self.offset)
    }
}

impl From<SourceRecord> for SourceEnvelope {
    fn from(record: SourceRecord) -> (e: Self) {
        SourceEnvelope::new(record)
    }
}

impl vstd::std_specs::convert::FromSpecImpl<SourceRecord> for SourceEnvelope {
    open spec fn obeys_from_spec() -> bool {
        true
    }

    open spec fn from_spec(v: SourceRecord) -> SourceEnvelope {
        SourceEnvelope::spec_wrap(v)
    }
}

/// `from_json` is `new` of what `serde_json::to_value` gives for the data:
/// on success the payload is that value, with the topic given, no attributes
/// and no key; it fails only when `to_value` fails.
pub proof fn lemma_from_json_is_new_of_to_value<T: serde::Serialize>(topic: &str, data: T, r: ConnectorResult<SourceRecord>)
    requires
        call_ensures(SourceRecord::from_json::<T>, (topic, data), r),
    ensures
        r matches Ok(rec) ==> exists|v: serde_json::Value|
            #[trigger] to_value_result::<T>(data, Ok(v)) && rec.payload == v && rec.topic@ == topic@
                && rec.key is None && rec.attributes.view() == Map::<Seq<char>, String>::empty(),
        r is Err ==> exists|je: serde_json::Error| #[trigger] to_value_result::<T>(data, Err(je)),
{
    if let Ok(rec) = r {
        assert(to_value_result::<T>(data, Ok(rec.payload)));
    }
}

} // verus!
