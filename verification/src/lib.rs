//! Datadog trace-context propagation.
//!
//! A span context travels between services in three headers:
//! `x-datadog-trace-id` and `x-datadog-parent-id`, both unsigned 64-bit
//! integers in decimal, and `x-datadog-sampling-priority`, one of -1, 0, 1 and
//! 2. [`DatadogPropagator`] reads a span context from the values of those
//! headers and tells which values to write for one. With agent sampling, the
//! sampling decision of a read context is kept in its trace state as the Datadog
//! `psr` flag, beside the `m` ("measured") flag; [`DatadogTraceStateBuilder`] and
//! [`DatadogTraceState`] write and read those flags.

pub mod decimal;
pub mod propagator;
pub mod trace_state;

pub use propagator::DatadogPropagator;
pub use propagator::ExtractError;
pub use propagator::SamplingPriority;
pub use propagator::SpanContextData;
pub use trace_state::DatadogTraceState;
pub use trace_state::DatadogTraceStateBuilder;
