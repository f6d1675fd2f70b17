//! Routing and record metadata shared by source and sink records.

use vstd::prelude::*;

use crate::attributes::Attributes;
use crate::schema::SchemaInfo;

verus! {

/// Routing metadata shared by source and sink records.
#[derive(Debug, Clone, Copy)]
pub struct RoutingContext<'a> {
    topic: &'a str,
    key: Option<&'a str>,
    partition: Option<&'a str>,
    attributes: &'a Attributes,
}

impl<'a> RoutingContext<'a> {
    pub closed spec fn spec_topic(&self) -> &'a str {
        self.topic
    }

    pub closed spec fn spec_key(&self) -> Option<&'a str> {
        self.key
    }

    pub closed spec fn spec_partition(&self) -> Option<&'a str> {
        self.partition
    }

    pub closed spec fn spec_attributes(&self) -> &'a Attributes {
        self.attributes
    }

    /// Create a routing context from its raw topic, key, partition, and attributes.
    pub fn new(
        topic: &'a str,
        key: Option<&'a str>,
        partition: Option<&'a str>,
        attributes: &'a Attributes,
    ) -> (c: Self)
        ensures
            c.spec_topic() == topic,
            c.spec_key() == key,
            c.spec_partition() == partition,
            c.spec_attributes() == attributes,
    {
        RoutingContext { topic, key, partition, attributes }
    }

    /// Return the logical Danube topic associated with the record.
    pub fn topic(&self) -> (t: &'a str)
        ensures
            t == self.spec_topic(),
    {
        self.topic
    }

    /// Return the routing key used for partitioned publishing, if present.
    pub fn key(&self) -> (k: Option<&'a str>)
        ensures
            k == self.spec_key(),
    {
        self.key
    }

    /// Return the partition identifier for consumed records, if known.
    pub fn partition(&self) -> (p: Option<&'a str>)
        ensures
            p == self.spec_partition(),
    {
        self.partition
    }

    /// Return the user-defined record attributes.
    pub fn attributes(&self) -> (a: &'a Attributes)
        ensures
            a == self.spec_attributes(),
    {
        self.attributes
    }
}

/// Full record context combining routing data with source metadata.
#[derive(Debug, Clone, Copy)]
pub struct RecordContext<'a> {
    routing: RoutingContext<'a>,
    publish_time: Option<u64>,
    producer_name: Option<&'a str>,
    schema: Option<&'a SchemaInfo>,
}

impl<'a> RecordContext<'a> {
    pub closed spec fn spec_routing(&self) -> RoutingContext<'a> {
        self.routing
    }

    pub closed spec fn spec_publish_time(&self) -> Option<u64> {
        self.publish_time
    }

    pub closed spec fn spec_producer_name(&self) -> Option<&'a str> {
        self.producer_name
    }

    pub closed spec fn spec_schema(&self) -> Option<&'a SchemaInfo> {
        self.schema
    }

    /// Create a record context from routing metadata and optional Danube metadata.
    pub fn new(
        routing: RoutingContext<'a>,
        publish_time: Option<u64>,
        producer_name: Option<&'a str>,
        schema: Option<&'a SchemaInfo>,
    ) -> (c: Self)
        ensures
            c.spec_routing() == routing,
            c.spec_publish_time() == publish_time,
            c.spec_producer_name() == producer_name,
            c.spec_schema() == schema,
    {
        RecordContext { routing, publish_time, producer_name, schema }
    }

    /// Return the routing portion of this record context.
    pub fn routing(&self) -> (r: RoutingContext<'a>)
        ensures
            r == self.spec_routing(),
    {
        self.routing
    }

    /// Return the logical topic associated with the record.
    pub fn topic(&self) -> (t: &'a str)
        ensures
            t == self.spec_routing().spec_topic(),
    {
        self.routing.topic()
    }

    /// Return the routing key used for partitioned publishing, if present.
    pub fn key(&self) -> (k: Option<&'a str>)
        ensures
            k == self.spec_routing().spec_key(),
    {
        self.routing.key()
    }

    /// Return the consumed partition identifier, if known.
    pub fn partition(&self) -> (p: Option<&'a str>)
        ensures
            p == self.spec_routing().spec_partition(),
    {
        self.routing.partition()
    }

    /// Return the user-defined attributes carried by the record.
    pub fn attributes(&self) -> (a: &'a Attributes)
        ensures
            a == self.spec_routing().spec_attributes(),
    {
        self.routing.attributes()
    }

    /// Return the Danube publish timestamp in microseconds since epoch, if available.
    pub fn publish_time(&self) -> (t: Option<u64>)
        ensures
            t == self.spec_publish_time(),
    {
        self.publish_time
    }

    /// Return the producer name that originally published the record, if available.
    pub fn producer_name(&self) -> (n: Option<&'a str>)
        ensures
            n == self.spec_producer_name(),
    {
        self.producer_name
    }

    /// Return schema metadata associated with the record, if available.
    pub fn schema(&self) -> (s: Option<&'a SchemaInfo>)
        ensures
            s == self.spec_schema(),
    {
        self.schema
    }
}

} // verus!
