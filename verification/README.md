# opentelemetry-datadog (verified propagation)

Datadog trace-context propagation for OpenTelemetry, with its logic proved in
Verus.

- `src/decimal.rs`: reading decimal `u64` and `i32` values (an optional sign,
  then digits) and writing them back, with the round trip proved.
- `src/trace_state.rs`: the Datadog flags kept in a W3C trace state (`m` for
  "measured", `psr` for the agent's priority-sampling decision), the builder of
  such a state, and the trusted calls into `opentelemetry::trace::TraceState`,
  whose list members the contracts speak of.
- `src/propagator.rs`: the `x-datadog-trace-id`, `x-datadog-parent-id` and
  `x-datadog-sampling-priority` headers; reading a span context from their
  values and choosing the values to write for one. By default a read sampling
  priority sets the sampled bit of the trace flags; with agent sampling it is
  kept in the trace state as the `psr` flag and the context is marked sampled.
  An unreadable or missing priority defers the decision either way.
- `app/lib.rs`: the `TextMapPropagator` implementation that moves span contexts
  between an OpenTelemetry `Context` and a header carrier.
