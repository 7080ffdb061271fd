# publisher

A feature-flag and event-publishing service whose decisions are proved with Verus.

- `src/` is the verified library: flag evaluation (`flags`), the event publication steps and
  the broker-confirmation decisions (`events`), error answers (`error`), configuration
  defaults (`config`), log-line formatting (`telemetry`) and the pipeline counters (`metrics`).
  The laws of flag evaluation are in `src/flags/laws.rs`; those of the publication steps and
  of confirmations stand beside the functions they are about.
- `app/` is the HTTP service around it: axum routes, the PostgreSQL repository, the RabbitMQ
  connection and OpenTelemetry set-up. It hands plain values to the library and performs
  the I/O that the library decides on.
- `tests/` runs the library on concrete values.
