# pulsar_connector

An Apache Pulsar source connector for a streaming engine, with its decisions verified in
[Verus](https://github.com/verus-lang/verus).

- `src/options.rs`, `src/reading.rs`: a table's options, and what they say
- `src/config.rs`, `src/schema.rs`, `src/error.rs`: configurations, schemas and errors
- `src/connector.rs`, `src/connection.rs`, `src/trial.rs`: the connector, the connections it makes,
  and how they are tried out
- `src/connect.rs`: setting up a client, step by step
- `src/source.rs`: running a source, step by step
- `src/laws.rs`: what holds of all this together
- `app/`: the input and output that the library asks for, over the `pulsar` crate and `tokio`

The library is written as functions from where things stand and what happened to where they stand
then and what to do next. It never talks to a broker itself.

One thing is believed without proof: how `serde_json` shows an object for debugging depends on the
object's members alone (`show_object` in `src/connection.rs`).
