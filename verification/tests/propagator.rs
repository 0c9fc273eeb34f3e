use std::collections::HashMap;

use opentelemetry::trace::TraceState;

use opentelemetry_datadog::propagator::create_trace_state_and_flags;
use opentelemetry_datadog::propagator::get_sampling_priority;
use opentelemetry_datadog::propagator::trace_context_header_fields;
use opentelemetry_datadog::propagator::DATADOG_PARENT_ID_HEADER;
use opentelemetry_datadog::propagator::DATADOG_SAMPLING_PRIORITY_HEADER;
use opentelemetry_datadog::propagator::DATADOG_TRACE_ID_HEADER;
use opentelemetry_datadog::propagator::TRACE_FLAG_DEFERRED;
use opentelemetry_datadog::propagator::TRACE_FLAG_NOT_SAMPLED;
use opentelemetry_datadog::propagator::TRACE_FLAG_SAMPLED;
use opentelemetry_datadog::DatadogPropagator;
use opentelemetry_datadog::DatadogTraceState;
use opentelemetry_datadog::DatadogTraceStateBuilder;
use opentelemetry_datadog::ExtractError;
use opentelemetry_datadog::SamplingPriority;
use opentelemetry_datadog::SpanContextData;

fn span_context(
    trace_id: u128,
    span_id: u64,
    trace_flags: u8,
    is_remote: bool,
    trace_state: TraceState,
) -> SpanContextData {
    SpanContextData { trace_id, span_id, trace_flags, is_remote, trace_state }
}

/// The span context that a context without a remote span reports.
fn empty_context() -> SpanContextData {
    span_context(0, 0, TRACE_FLAG_NOT_SAMPLED, false, TraceState::NONE)
}

/// Reads the span context of the headers of `map`, as a propagator's `extract`
/// does: a context that cannot be read leaves no span.
fn extract_with(propagator: &DatadogPropagator, map: &HashMap<String, String>) -> SpanContextData {
    let header = |name: &str| map.get(name).map(|value| value.as_str());
    match propagator.extract_span_context(
        header(DATADOG_TRACE_ID_HEADER),
        header(DATADOG_PARENT_ID_HEADER),
        header(DATADOG_SAMPLING_PRIORITY_HEADER),
    ) {
        Ok(sc) => sc,
        Err(_) => empty_context(),
    }
}

fn extract(map: &HashMap<String, String>) -> SpanContextData {
    extract_with(&DatadogPropagator::default(), map)
}

fn agent_sampling() -> DatadogPropagator {
    DatadogPropagator::new().with_agent_sampling(true)
}

fn priority_state(enabled: bool) -> TraceState {
    DatadogTraceStateBuilder::default()
        .with_agent_sampling(true)
        .with_priority_sampling(enabled)
        .build()
}

fn agent_sampling_extract_test_data() -> Vec<(Vec<(&'static str, &'static str)>, SpanContextData)> {
    vec![
        (vec![], empty_context()),
        (vec![(DATADOG_SAMPLING_PRIORITY_HEADER, "0")], empty_context()),
        (vec![(DATADOG_TRACE_ID_HEADER, "garbage")], empty_context()),
        (vec![(DATADOG_TRACE_ID_HEADER, "1234"), (DATADOG_PARENT_ID_HEADER, "garbage")], span_context(1234, 0, TRACE_FLAG_DEFERRED, true, TraceState::default())),
        (vec![(DATADOG_TRACE_ID_HEADER, "1234"), (DATADOG_PARENT_ID_HEADER, "12")], span_context(1234, 12, TRACE_FLAG_DEFERRED, true, TraceState::default())),
        (vec![(DATADOG_TRACE_ID_HEADER, "1234"), (DATADOG_PARENT_ID_HEADER, "12"), (DATADOG_SAMPLING_PRIORITY_HEADER, "0")], span_context(1234, 12, TRACE_FLAG_SAMPLED, true, priority_state(false))),
        (vec![(DATADOG_TRACE_ID_HEADER, "1234"), (DATADOG_PARENT_ID_HEADER, "12"), (DATADOG_SAMPLING_PRIORITY_HEADER, "1")], span_context(1234, 12, TRACE_FLAG_SAMPLED, true, priority_state(true))),
    ]
}

fn agent_sampling_inject_test_data() -> Vec<(Vec<(&'static str, &'static str)>, SpanContextData)> {
    vec![
        (vec![], empty_context()),
        (vec![], span_context(0, 0, TRACE_FLAG_DEFERRED, true, TraceState::default())),
        (vec![], span_context(0x1234, 0, TRACE_FLAG_DEFERRED, true, TraceState::default())),
        (vec![], span_context(0x1234, 0, TRACE_FLAG_SAMPLED, true, TraceState::default())),
        (vec![(DATADOG_TRACE_ID_HEADER, "1234"), (DATADOG_PARENT_ID_HEADER, "12")], span_context(1234, 12, TRACE_FLAG_DEFERRED, true, TraceState::default())),
        (vec![(DATADOG_TRACE_ID_HEADER, "1234"), (DATADOG_PARENT_ID_HEADER, "12"), (DATADOG_SAMPLING_PRIORITY_HEADER, "0")], span_context(1234, 12, TRACE_FLAG_SAMPLED, true, priority_state(false))),
        (vec![(DATADOG_TRACE_ID_HEADER, "1234"), (DATADOG_PARENT_ID_HEADER, "12"), (DATADOG_SAMPLING_PRIORITY_HEADER, "1")], span_context(1234, 12, TRACE_FLAG_SAMPLED, true, priority_state(true))),
    ]
}

fn extract_test_data() -> Vec<(Vec<(&'static str, &'static str)>, SpanContextData)> {
    vec![
        (vec![], empty_context()),
        (vec![(DATADOG_SAMPLING_PRIORITY_HEADER, "0")], empty_context()),
        (vec![(DATADOG_TRACE_ID_HEADER, "garbage")], empty_context()),
        (vec![(DATADOG_TRACE_ID_HEADER, "1234"), (DATADOG_PARENT_ID_HEADER, "garbage")], span_context(1234, 0, TRACE_FLAG_DEFERRED, true, TraceState::default())),
        (vec![(DATADOG_TRACE_ID_HEADER, "1234"), (DATADOG_PARENT_ID_HEADER, "12")], span_context(1234, 12, TRACE_FLAG_DEFERRED, true, TraceState::default())),
        (vec![(DATADOG_TRACE_ID_HEADER, "1234"), (DATADOG_PARENT_ID_HEADER, "12"), (DATADOG_SAMPLING_PRIORITY_HEADER, "0")], span_context(1234, 12, TRACE_FLAG_NOT_SAMPLED, true, TraceState::default())),
        (vec![(DATADOG_TRACE_ID_HEADER, "1234"), (DATADOG_PARENT_ID_HEADER, "12"), (DATADOG_SAMPLING_PRIORITY_HEADER, "1")], span_context(1234, 12, TRACE_FLAG_SAMPLED, true, TraceState::default())),
    ]
}

fn inject_test_data() -> Vec<(Vec<(&'static str, &'static str)>, SpanContextData)> {
    vec![
        (vec![], empty_context()),
        (vec![], span_context(0, 0, TRACE_FLAG_DEFERRED, true, TraceState::default())),
        (vec![], span_context(0x1234, 0, TRACE_FLAG_DEFERRED, true, TraceState::default())),
        (vec![], span_context(0x1234, 0, TRACE_FLAG_SAMPLED, true, TraceState::default())),
        (vec![(DATADOG_TRACE_ID_HEADER, "1234"), (DATADOG_PARENT_ID_HEADER, "12")], span_context(1234, 12, TRACE_FLAG_DEFERRED, true, TraceState::default())),
        (vec![(DATADOG_TRACE_ID_HEADER, "1234"), (DATADOG_PARENT_ID_HEADER, "12"), (DATADOG_SAMPLING_PRIORITY_HEADER, "0")], span_context(1234, 12, TRACE_FLAG_NOT_SAMPLED, true, TraceState::default())),
        (vec![(DATADOG_TRACE_ID_HEADER, "1234"), (DATADOG_PARENT_ID_HEADER, "12"), (DATADOG_SAMPLING_PRIORITY_HEADER, "1")], span_context(1234, 12, TRACE_FLAG_SAMPLED, true, TraceState::default())),
    ]
}

/// The propagators of the two builds, each with the data it is held to.
fn extract_cases() -> Vec<(DatadogPropagator, Vec<(Vec<(&'static str, &'static str)>, SpanContextData)>)> {
    vec![
        (DatadogPropagator::default(), extract_test_data()),
        (agent_sampling(), agent_sampling_extract_test_data()),
    ]
}

fn inject_cases() -> Vec<(DatadogPropagator, Vec<(Vec<(&'static str, &'static str)>, SpanContextData)>)> {
    vec![
        (DatadogPropagator::default(), inject_test_data()),
        (agent_sampling(), agent_sampling_inject_test_data()),
    ]
}

#[test]
fn test_extract() {
    for (propagator, data) in extract_cases() {
        for (header_list, expected) in data {
            let map: HashMap<String, String> = header_list
                .into_iter()
                .map(|(k, v)| (k.to_string(), v.to_string()))
                .collect();

            assert_eq!(extract_with(&propagator, &map), expected);
        }
    }
}

#[test]
fn test_extract_empty() {
    let map: HashMap<String, String> = HashMap::new();
    assert_eq!(extract(&map), empty_context());
    assert_eq!(extract_with(&agent_sampling(), &map), empty_context())
}

#[test]
fn test_extract_with_empty_remote_context() {
    // With no header there is no remote span context to attach.
    let map: HashMap<String, String> = HashMap::new();
    let propagator = DatadogPropagator::default();
    let header = |name: &str| map.get(name).map(|value| value.as_str());
    let extracted = propagator.extract_span_context(
        header(DATADOG_TRACE_ID_HEADER),
        header(DATADOG_PARENT_ID_HEADER),
        header(DATADOG_SAMPLING_PRIORITY_HEADER),
    );
    assert!(extracted.is_err())
}

#[test]
fn test_inject() {
    for (propagator, data) in inject_cases() {
    for (header_values, span_context) in data {
        let mut injector: HashMap<String, String> = HashMap::new();
        for (k, v) in propagator.inject_context(&span_context) {
            injector.insert(k, v);
        }

        if !header_values.is_empty() {
            for (k, v) in header_values.into_iter() {
                let injected_value: Option<&String> = injector.get(k);
                assert_eq!(injected_value, Some(&v.to_string()));
                injector.remove(k);
            }
        }
        assert!(injector.is_empty());
    }
    }
}

#[test]
fn header_fields_are_the_three_datadog_headers() {
    assert_eq!(
        trace_context_header_fields(),
        vec![
            "x-datadog-trace-id".to_string(),
            "x-datadog-parent-id".to_string(),
            "x-datadog-sampling-priority".to_string(),
        ]
    );
}

#[test]
fn extract_trace_id_reads_u64_decimal() {
    let p = DatadogPropagator::new();
    assert_eq!(p.extract_trace_id("1234"), Ok(1234));
    assert_eq!(p.extract_trace_id("+7"), Ok(7));
    assert_eq!(p.extract_trace_id("18446744073709551615"), Ok(u64::MAX as u128));
    assert_eq!(p.extract_trace_id("18446744073709551616"), Err(ExtractError::TraceId));
    assert_eq!(p.extract_trace_id("-1"), Err(ExtractError::TraceId));
    assert_eq!(p.extract_trace_id(""), Err(ExtractError::TraceId));
    assert_eq!(p.extract_trace_id("0x12"), Err(ExtractError::TraceId));
}

#[test]
fn extract_span_id_error() {
    let p = DatadogPropagator::new();
    assert_eq!(p.extract_span_id("12"), Ok(12));
    assert_eq!(p.extract_span_id("garbage"), Err(ExtractError::SpanId));
    assert_eq!(p.extract_span_id(" 12"), Err(ExtractError::SpanId));
}

#[test]
fn extract_sampling_priority_values() {
    let p = DatadogPropagator::new();
    assert_eq!(p.extract_sampling_priority("-1"), Ok(SamplingPriority::UserReject));
    assert_eq!(p.extract_sampling_priority("0"), Ok(SamplingPriority::AutoReject));
    assert_eq!(p.extract_sampling_priority("+1"), Ok(SamplingPriority::AutoKeep));
    assert_eq!(p.extract_sampling_priority("02"), Ok(SamplingPriority::UserKeep));
    assert_eq!(p.extract_sampling_priority("3"), Err(ExtractError::SamplingPriority));
    assert_eq!(p.extract_sampling_priority("-2"), Err(ExtractError::SamplingPriority));
    assert_eq!(p.extract_sampling_priority("keep"), Err(ExtractError::SamplingPriority));
    assert_eq!(p.extract_sampling_priority("99999999999"), Err(ExtractError::SamplingPriority));
}

#[test]
fn sampling_priority_numbers() {
    assert_eq!(SamplingPriority::UserReject.to_i32(), -1);
    assert_eq!(SamplingPriority::AutoReject.to_i32(), 0);
    assert_eq!(SamplingPriority::AutoKeep.to_i32(), 1);
    assert_eq!(SamplingPriority::UserKeep.to_i32(), 2);
}

#[test]
fn user_priorities_are_read_as_decisions() {
    let p = agent_sampling();
    let sc = p.extract_span_context(Some("5"), Some("6"), Some("-1")).unwrap();
    assert_eq!(sc, span_context(5, 6, TRACE_FLAG_SAMPLED, true, priority_state(false)));
    let sc = p.extract_span_context(Some("5"), Some("6"), Some("2")).unwrap();
    assert_eq!(sc, span_context(5, 6, TRACE_FLAG_SAMPLED, true, priority_state(true)));
    assert!(sc.trace_state.priority_sampling_enabled());
    assert!(!sc.trace_state.measuring_enabled());
    let p = DatadogPropagator::new();
    let sc = p.extract_span_context(Some("5"), Some("6"), Some("-1")).unwrap();
    assert_eq!(sc, span_context(5, 6, TRACE_FLAG_NOT_SAMPLED, true, TraceState::default()));
    let sc = p.extract_span_context(Some("5"), Some("6"), Some("2")).unwrap();
    assert_eq!(sc, span_context(5, 6, TRACE_FLAG_SAMPLED, true, TraceState::default()));
}

#[test]
fn missing_trace_id_is_an_error() {
    let p = DatadogPropagator::new();
    assert_eq!(p.extract_span_context(None, Some("6"), Some("1")), Err(ExtractError::TraceId));
    assert_eq!(p.extract_span_context(Some("x"), Some("6"), Some("1")), Err(ExtractError::TraceId));
}

#[test]
fn trace_state_and_flags_of_a_read_decision() {
    let (ts, flags) = create_trace_state_and_flags(TRACE_FLAG_DEFERRED, true);
    assert_eq!(flags, TRACE_FLAG_DEFERRED);
    assert_eq!(ts, TraceState::default());
    let (ts, flags) = create_trace_state_and_flags(TRACE_FLAG_DEFERRED | TRACE_FLAG_SAMPLED, true);
    assert_eq!(flags, 3);
    assert_eq!(ts, TraceState::NONE);
    let (ts, flags) = create_trace_state_and_flags(TRACE_FLAG_SAMPLED, true);
    assert_eq!(flags, TRACE_FLAG_SAMPLED);
    assert_eq!(ts.header(), "m=0,psr=1");
    let (ts, flags) = create_trace_state_and_flags(TRACE_FLAG_NOT_SAMPLED, true);
    assert_eq!(flags, TRACE_FLAG_SAMPLED);
    assert_eq!(ts.header(), "m=0,psr=0");
    for flags in [TRACE_FLAG_NOT_SAMPLED, TRACE_FLAG_SAMPLED, TRACE_FLAG_DEFERRED, 3] {
        let (ts, read) = create_trace_state_and_flags(flags, false);
        assert_eq!(read, flags);
        assert_eq!(ts, TraceState::NONE);
    }
}

#[test]
fn sampling_priority_follows_trace_state() {
    let kept = span_context(1, 2, TRACE_FLAG_SAMPLED, false, priority_state(true));
    assert_eq!(get_sampling_priority(&kept, true), SamplingPriority::AutoKeep);
    let rejected = span_context(1, 2, TRACE_FLAG_SAMPLED, false, priority_state(false));
    assert_eq!(get_sampling_priority(&rejected, true), SamplingPriority::AutoReject);
    let none = span_context(1, 2, TRACE_FLAG_SAMPLED, false, TraceState::default());
    assert_eq!(get_sampling_priority(&none, true), SamplingPriority::AutoReject);
}

#[test]
fn sampling_priority_follows_sampled_bit_without_agent_sampling() {
    let sampled = span_context(1, 2, TRACE_FLAG_SAMPLED, false, priority_state(false));
    assert_eq!(get_sampling_priority(&sampled, false), SamplingPriority::AutoKeep);
    let not_sampled = span_context(1, 2, TRACE_FLAG_NOT_SAMPLED, false, priority_state(true));
    assert_eq!(get_sampling_priority(&not_sampled, false), SamplingPriority::AutoReject);
}

#[test]
fn inject_writes_low_64_bits_of_trace_id() {
    let p = agent_sampling();
    let sc = span_context((1u128 << 64) + 42, u64::MAX, TRACE_FLAG_SAMPLED, false, priority_state(true));
    let headers = p.inject_context(&sc);
    assert_eq!(
        headers,
        vec![
            ("x-datadog-trace-id".to_string(), "42".to_string()),
            ("x-datadog-parent-id".to_string(), "18446744073709551615".to_string()),
            ("x-datadog-sampling-priority".to_string(), "1".to_string()),
        ]
    );
}

#[test]
fn inject_then_extract_round_trip() {
    let p = agent_sampling();
    for (priority, deferred) in [(true, false), (false, false), (false, true)] {
        let flags = if deferred { TRACE_FLAG_DEFERRED } else { TRACE_FLAG_NOT_SAMPLED };
        let sc = span_context(987654321987654321, 123456789, flags, false, priority_state(priority));
        let headers: HashMap<String, String> = p.inject_context(&sc).into_iter().collect();
        let back = extract_with(&p, &headers);
        assert_eq!(back.trace_id, sc.trace_id);
        assert_eq!(back.span_id, sc.span_id);
        assert!(back.is_remote);
        assert_eq!(back.trace_flags & TRACE_FLAG_DEFERRED == TRACE_FLAG_DEFERRED, deferred);
        if !deferred {
            assert_eq!(back.trace_state.priority_sampling_enabled(), priority);
        }
    }
    let p = DatadogPropagator::new();
    for flags in [TRACE_FLAG_NOT_SAMPLED, TRACE_FLAG_SAMPLED, TRACE_FLAG_DEFERRED] {
        let sc = span_context(987654321987654321, 123456789, flags, false, TraceState::default());
        let headers: HashMap<String, String> = p.inject_context(&sc).into_iter().collect();
        let back = extract_with(&p, &headers);
        assert_eq!(back, span_context(987654321987654321, 123456789, flags, true, TraceState::NONE));
    }
}
