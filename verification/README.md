# danube_connect_core

Core SDK for connectors of the Danube messaging system, written in Verus.

`src/` is the verified library: configuration and its validation, connector
errors, sink and source records and their routing/record contexts, payload
decoding and schema-aware encoding (JSON, text, numbers, base64 bytes),
attribute maps, retry strategies and backoff, batching, health tracking, the
schema cache, metric names and labels, and the decisions of the sink and
source runtimes (which configurations to refuse, how to register schemas,
how producers are named and bound to schemas, what is published and which
offsets are committed). Each public function states its result in `ensures`;
properties spanning several calls are public proof functions.

Calls into `serde_json`, `base64`, `rand` and std functions that vstd does not
specify go through small trusted wrappers whose contracts say what those
functions' documentation promises.

`app/` is the asynchronous runtime around the library: the connector traits,
the sink and source runtimes driving the Danube client, configuration loading
from the environment and TOML files, the schema-registry context, and
Prometheus metrics emission.

`tests/` exercises the library on concrete values.
