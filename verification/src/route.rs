//! Routes: the per-topic consumer and producer settings in a form shared by
//! sink and source connectors, and their conversions from and to the
//! consumer and producer configurations.

use vstd::prelude::*;
use vstd::string::*;

use crate::config::{copy_opt_string, copy_string, ConsumerConfig, ProducerConfig, SchemaConfig, SubscriptionType};

verus! {

/// Schema policy of a route: the subject consumed messages must carry, and
/// the schema published messages are written with.
#[derive(Debug, Clone)]
pub struct RouteSchemaPolicy {
    pub expected_subject: Option<String>,
    pub output_schema: Option<SchemaConfig>,
}

impl RouteSchemaPolicy {
    /// A policy with neither an expected subject nor an output schema.
    pub fn none() -> (p: Self)
        ensures
            p.expected_subject is None,
            p.output_schema is None,
    {
        RouteSchemaPolicy { expected_subject: None, output_schema: None }
    }
}

/// Subscription policy of a sink route.
#[derive(Debug, Clone)]
pub struct RouteSubscriptionPolicy {
    pub consumer_name: String,
    pub subscription: String,
    pub subscription_type: SubscriptionType,
}

impl RouteSubscriptionPolicy {
    pub fn new(consumer_name: &str, subscription: &str, subscription_type: SubscriptionType) -> (p: Self)
        ensures
            p.consumer_name@ == consumer_name@,
            p.subscription@ == subscription@,
            p.subscription_type == subscription_type,
    {
        RouteSubscriptionPolicy {
            consumer_name: <String as StringExecFns>::from_str(consumer_name),
            subscription: <String as StringExecFns>::from_str(subscription),
            subscription_type,
        }
    }
}

/// Dispatch policy of a source route.
#[derive(Debug, Clone, Copy)]
pub struct RouteDispatchPolicy {
    pub partitions: usize,
    pub reliable_dispatch: bool,
}

impl RouteDispatchPolicy {
    pub fn new(partitions: usize, reliable_dispatch: bool) -> (p: Self)
        ensures
            p.partitions == partitions,
            p.reliable_dispatch == reliable_dispatch,
    {
        RouteDispatchPolicy { partitions, reliable_dispatch }
    }
}

/// A topic a sink connector consumes from.
#[derive(Debug, Clone)]
pub struct SinkRoute {
    pub topic: String,
    pub subscription: RouteSubscriptionPolicy,
    pub schema: RouteSchemaPolicy,
}

impl SinkRoute {
    pub fn new(topic: &str, subscription: RouteSubscriptionPolicy, schema: RouteSchemaPolicy) -> (r: Self)
        ensures
            r.topic@ == topic@,
            r.subscription == subscription,
            r.schema == schema,
    {
        SinkRoute { topic: <String as StringExecFns>::from_str(topic), subscription, schema }
    }
}

/// A topic a source connector publishes to.
#[derive(Debug, Clone)]
pub struct SourceRoute {
    pub topic: String,
    pub dispatch: RouteDispatchPolicy,
    pub schema: RouteSchemaPolicy,
}

impl SourceRoute {
    pub fn new(topic: &str, dispatch: RouteDispatchPolicy, schema: RouteSchemaPolicy) -> (r: Self)
        ensures
            r.topic@ == topic@,
            r.dispatch == dispatch,
            r.schema == schema,
    {
        SourceRoute { topic: <String as StringExecFns>::from_str(topic), dispatch, schema }
    }
}

/// The route of a consumer configuration.
pub open spec fn sink_route_of(c: ConsumerConfig) -> SinkRoute {
    SinkRoute {
        topic: c.topic,
        subscription: RouteSubscriptionPolicy {
            consumer_name: c.consumer_name,
            subscription: c.subscription,
            subscription_type: c.subscription_type,
        },
        schema: RouteSchemaPolicy { expected_subject: c.expected_schema_subject, output_schema: None },
    }
}

/// The consumer configuration of a sink route.
pub open spec fn consumer_config_of(r: SinkRoute) -> ConsumerConfig {
    ConsumerConfig {
        topic: r.topic,
        consumer_name: r.subscription.consumer_name,
        subscription: r.subscription.subscription,
        subscription_type: r.subscription.subscription_type,
        expected_schema_subject: r.schema.expected_subject,
    }
}

/// The route of a producer configuration.
pub open spec fn source_route_of(c: ProducerConfig) -> SourceRoute {
    SourceRoute {
        topic: c.topic,
        dispatch: RouteDispatchPolicy { partitions: c.partitions, reliable_dispatch: c.reliable_dispatch },
        schema: RouteSchemaPolicy { expected_subject: None, output_schema: c.schema_config },
    }
}

/// The producer configuration of a source route.
pub open spec fn producer_config_of(r: SourceRoute) -> ProducerConfig {
    ProducerConfig {
        topic: r.topic,
        partitions: r.dispatch.partitions,
        reliable_dispatch: r.dispatch.reliable_dispatch,
        schema_config: r.schema.output_schema,
    }
}

fn copy_opt_schema(s: &Option<SchemaConfig>) -> (r: Option<SchemaConfig>)
    ensures
        r == *s,
{
    match s {
        Some(c) => Some(c.duplicate()),
        None => None,
    }
}

impl ConsumerConfig {
    /// The route this configuration describes.
    pub fn route(&self) -> (r: SinkRoute)
        ensures
            r == sink_route_of(*self),
    {
        SinkRoute {
            topic: copy_string(&self.topic),
            subscription: RouteSubscriptionPolicy {
                consumer_name: copy_string(&self.consumer_name),
                subscription: copy_string(&self.subscription),
                subscription_type: self.subscription_type,
            },
            schema: RouteSchemaPolicy {
                expected_subject: copy_opt_string(&self.expected_schema_subject),
                output_schema: None,
            },
        }
    }

    /// The consumer configuration of a route (its output schema is not used).
    pub fn from_route(route: SinkRoute) -> (c: Self)
        ensures
            c == consumer_config_of(route),
    {
        ConsumerConfig {
            topic: route.topic,
            consumer_name: route.subscription.consumer_name,
            subscription: route.subscription.subscription,
            subscription_type: route.subscription.subscription_type,
            expected_schema_subject: route.schema.expected_subject,
        }
    }
}

impl ProducerConfig {
    /// The route this configuration describes.
    pub fn route(&self) -> (r: SourceRoute)
        ensures
            r == source_route_of(*self),
    {
        SourceRoute {
            topic: copy_string(&self.topic),
            dispatch: RouteDispatchPolicy {
                partitions: self.partitions,
                reliable_dispatch: self.reliable_dispatch,
            },
            schema: RouteSchemaPolicy {
                expected_subject: None,
                output_schema: copy_opt_schema(&self.schema_config),
            },
        }
    }

    /// The producer configuration of a route (its expected subject is not used).
    pub fn from_route(route: SourceRoute) -> (c: Self)
        ensures
            c == producer_config_of(route),
    {
        ProducerConfig {
            topic: route.topic,
            partitions: route.dispatch.partitions,
            reliable_dispatch: route.dispatch.reliable_dispatch,
            schema_config: route.schema.output_schema,
        }
    }
}

impl From<ConsumerConfig> for SinkRoute {
    fn from(config: ConsumerConfig) -> (r: Self) {
        SinkRoute {
            topic: config.topic,
            subscription: RouteSubscriptionPolicy {
                consumer_name: config.consumer_name,
                subscription: config.subscription,
                subscription_type: config.subscription_type,
            },
            schema: RouteSchemaPolicy { expected_subject: config.expected_schema_subject, output_schema: None },
        }
    }
}

impl vstd::std_specs::convert::FromSpecImpl<ConsumerConfig> for SinkRoute {
    open spec fn obeys_from_spec() -> bool {
        true
    }

    open spec fn from_spec(v: ConsumerConfig) -> SinkRoute {
        sink_route_of(v)
    }
}

impl From<SinkRoute> for ConsumerConfig {
    fn from(route: SinkRoute) -> (c: Self) {
        ConsumerConfig::from_route(route)
    }
}

impl vstd::std_specs::convert::FromSpecImpl<SinkRoute> for ConsumerConfig {
    open spec fn obeys_from_spec() -> bool {
        true
    }

    open spec fn from_spec(v: SinkRoute) -> ConsumerConfig {
        consumer_config_of(v)
    }
}

impl From<ProducerConfig> for SourceRoute {
    fn from(config: ProducerConfig) -> (r: Self) {
        SourceRoute {
            topic: config.topic,
            dispatch: RouteDispatchPolicy {
                partitions: config.partitions,
                reliable_dispatch: config.reliable_dispatch,
            },
            schema: RouteSchemaPolicy { expected_subject: None, output_schema: config.schema_config },
        }
    }
}

impl vstd::std_specs::convert::FromSpecImpl<ProducerConfig> for SourceRoute {
    open spec fn obeys_from_spec() -> bool {
        true
    }

    open spec fn from_spec(v: ProducerConfig) -> SourceRoute {
        source_route_of(v)
    }
}

impl From<SourceRoute> for ProducerConfig {
    fn from(route: SourceRoute) -> (c: Self) {
        ProducerConfig::from_route(route)
    }
}

impl vstd::std_specs::convert::FromSpecImpl<SourceRoute> for ProducerConfig {
    open spec fn obeys_from_spec() -> bool {
        true
    }

    open spec fn from_spec(v: SourceRoute) -> ProducerConfig {
        producer_config_of(v)
    }
}

/// A consumer configuration survives the trip through its route unchanged.
pub proof fn lemma_consumer_route_roundtrip(c: ConsumerConfig)
    ensures
        consumer_config_of(sink_route_of(c)) == c,
{
}

/// A sink route without an output schema survives the trip through its
/// consumer configuration unchanged.
pub proof fn lemma_sink_route_roundtrip(r: SinkRoute)
    requires
        r.schema.output_schema is None,
    ensures
        sink_route_of(consumer_config_of(r)) == r,
{
}

/// A producer configuration survives the trip through its route unchanged.
pub proof fn lemma_producer_route_roundtrip(c: ProducerConfig)
    ensures
        producer_config_of(source_route_of(c)) == c,
{
}

/// A source route without an expected subject survives the trip through its
/// producer configuration unchanged.
pub proof fn lemma_source_route_roundtrip(r: SourceRoute)
    requires
        r.schema.expected_subject is None,
    ensures
        source_route_of(producer_config_of(r)) == r,
{
}

} // verus!
