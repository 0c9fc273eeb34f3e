use opentelemetry::trace::TraceState;

use opentelemetry_datadog::trace_state::boolean_to_trace_state_flag;
use opentelemetry_datadog::trace_state::trace_flag_to_boolean;
use opentelemetry_datadog::DatadogTraceState;
use opentelemetry_datadog::DatadogTraceStateBuilder;

#[test]
fn flags_as_values() {
    assert_eq!(boolean_to_trace_state_flag(true), "1");
    assert_eq!(boolean_to_trace_state_flag(false), "0");
    assert!(trace_flag_to_boolean("1"));
    assert!(!trace_flag_to_boolean("0"));
    assert!(!trace_flag_to_boolean("11"));
    assert!(!trace_flag_to_boolean(""));
    assert!(!trace_flag_to_boolean("true"));
    assert!(!trace_flag_to_boolean(" 1"));
}

#[test]
fn builder_writes_both_flags_in_order() {
    let ts = DatadogTraceStateBuilder::default().with_agent_sampling(true).build();
    assert_eq!(ts.header(), "m=0,psr=0");
    let ts = DatadogTraceStateBuilder::default()
        .with_agent_sampling(true)
        .with_measuring(true)
        .build();
    assert_eq!(ts.header(), "m=1,psr=0");
    let ts = DatadogTraceStateBuilder::default()
        .with_priority_sampling(true)
        .with_agent_sampling(true)
        .with_measuring(true)
        .build();
    assert_eq!(ts.header(), "m=1,psr=1");
    assert!(ts.measuring_enabled());
    assert!(ts.priority_sampling_enabled());
}

#[test]
fn builder_without_agent_sampling_writes_only_the_measured_flag() {
    let ts = DatadogTraceStateBuilder::default().build();
    assert_eq!(ts.header(), "m=0");
    let ts = DatadogTraceStateBuilder::default()
        .with_priority_sampling(true)
        .with_measuring(true)
        .build();
    assert_eq!(ts.header(), "m=1");
    assert!(ts.measuring_enabled());
    assert!(!ts.priority_sampling_enabled());
    assert_ne!(ts, TraceState::NONE);
}

#[test]
fn builder_setters_keep_the_other_flag() {
    let ts = DatadogTraceStateBuilder::default()
        .with_agent_sampling(true)
        .with_measuring(true)
        .with_priority_sampling(false)
        .build();
    assert!(ts.measuring_enabled());
    assert!(!ts.priority_sampling_enabled());
}

#[test]
fn with_measuring_moves_the_flag_first() {
    let ts = TraceState::from_key_value(vec![("foo", "bar"), ("m", "0"), ("apple", "banana")]).unwrap();
    let updated = ts.with_measuring(true);
    assert_eq!(updated.header(), "m=1,foo=bar,apple=banana");
    assert!(updated.measuring_enabled());
    assert!(!ts.measuring_enabled());
}

#[test]
fn with_priority_sampling_on_empty_state() {
    let ts = TraceState::default();
    assert!(!ts.priority_sampling_enabled());
    let updated = ts.with_priority_sampling(true);
    assert_eq!(updated.header(), "psr=1");
    assert!(updated.priority_sampling_enabled());
    assert!(!updated.with_priority_sampling(false).priority_sampling_enabled());
}

#[test]
fn read_after_write_for_both_flags() {
    let base = TraceState::from_key_value(vec![("psr", "1"), ("x", "y")]).unwrap();
    for enabled in [true, false] {
        assert_eq!(base.with_measuring(enabled).measuring_enabled(), enabled);
        assert_eq!(base.with_priority_sampling(enabled).priority_sampling_enabled(), enabled);
        // Setting one flag leaves the other.
        assert!(base.with_measuring(enabled).priority_sampling_enabled());
    }
}

#[test]
fn only_one_reads_as_true() {
    let ts = TraceState::from_key_value(vec![("m", "true"), ("psr", "01")]).unwrap();
    assert!(!ts.measuring_enabled());
    assert!(!ts.priority_sampling_enabled());
}

#[test]
fn first_member_with_the_key_wins() {
    let ts = TraceState::from_key_value(vec![("m", "1"), ("m", "0")]).unwrap();
    assert!(ts.measuring_enabled());
}

#[test]
fn full_state_drops_its_last_member() {
    let keys: Vec<String> = (0..32).map(|i| format!("k{}", i)).collect();
    let pairs: Vec<(&str, &str)> = keys.iter().map(|k| (k.as_str(), "v")).collect();
    let ts = TraceState::from_key_value(pairs).unwrap();
    assert_eq!(ts.get("k31"), Some("v"));
    let updated = ts.with_measuring(true);
    assert!(updated.measuring_enabled());
    assert_eq!(updated.get("k31"), None);
    assert_eq!(updated.get("k30"), Some("v"));
}
