use dapr::durabletask::proto::{TimerFiredEvent, TraceContext};
use dapr::durabletask::time::Timestamp;
use dapr::durabletask::tracing::{
    activity_span, checked_span_context_from_trace_context, checked_timer_span,
    create_orchestration_span, run_orchestration_span, span_context_from_trace_context, span_name,
    timer_span, trace_from_context_span, AttributeValue, SpanKindTag, SpanSnapshot,
    TraceContextError,
};

fn text(a: &AttributeValue) -> &str {
    match a {
        AttributeValue::Text(s) => s.as_str(),
        AttributeValue::Int(_) => panic!("not text"),
    }
}

#[test]
fn span_names() {
    assert_eq!(span_name("orchestration", "flow", "v2"), "orchestration||flow||v2");
    assert_eq!(span_name("orchestration", "flow", ""), "orchestration||flow");
    assert_eq!(span_name("timer", "", ""), "");
    assert_eq!(span_name("timer", "", "v1"), "timer||||v1");
}

#[test]
fn orchestration_spans() {
    let s = create_orchestration_span("flow", "", "i-1");
    assert_eq!(s.name(), "create_orchestration||flow");
    assert_eq!(s.kind, SpanKindTag::Client);
    assert_eq!(s.attributes.len(), 3);
    assert_eq!(s.attributes[0].key, "durabletask.type");
    assert_eq!(text(&s.attributes[0].value), "orchestration");
    assert_eq!(s.attributes[1].key, "durabletask.task.name");
    assert_eq!(text(&s.attributes[1].value), "flow");
    assert_eq!(s.attributes[2].key, "durabletask.task.instance_id");
    assert_eq!(text(&s.attributes[2].value), "i-1");

    let r = run_orchestration_span("flow", "v1", "i-1");
    assert_eq!(r.name(), "orchestration||flow||v1");
    assert_eq!(r.kind, SpanKindTag::Server);
}

#[test]
fn activity_span_has_task_id() {
    let s = activity_span("act", "", "i-2", 5);
    assert_eq!(s.name(), "create_orchestration||act");
    assert_eq!(s.kind, SpanKindTag::Client);
    assert_eq!(text(&s.attributes[0].value), "activity");
    assert_eq!(s.attributes[3].key, "durabletask.task.task_id");
    assert_eq!(s.attributes[3].value, AttributeValue::Int(5));
}

#[test]
fn timer_span_names_the_firing_time() {
    let tf = TimerFiredEvent { fire_at: Some(Timestamp { seconds: 0, nanos: 0 }), timer_id: 3 };
    let s = timer_span(&tf, "i-3");
    assert_eq!(s.name(), "");
    assert_eq!(s.kind, SpanKindTag::Internal);
    assert_eq!(text(&s.attributes[0].value), "timer");
    assert_eq!(text(&s.attributes[1].value), "1970-01-01T00:00:00+00:00");
    assert_eq!(s.attributes[3].value, AttributeValue::Int(3));
    assert!(checked_timer_span(&tf, "i-3").is_some());
}

#[test]
fn timer_span_needs_a_firing_time() {
    let tf = TimerFiredEvent { fire_at: None, timer_id: 3 };
    assert!(checked_timer_span(&tf, "i").is_none());
    let far = TimerFiredEvent { fire_at: Some(Timestamp { seconds: i64::MAX, nanos: 0 }), timer_id: 3 };
    assert!(checked_timer_span(&far, "i").is_none());
}

fn tc(parent: &str, span: &str, state: Option<&str>) -> TraceContext {
    TraceContext {
        trace_parent: parent.to_string(),
        span_id: span.to_string(),
        trace_state: state.map(|s| s.to_string()),
    }
}

#[test]
fn span_context_from_four_part_trace_parent() {
    let parts = span_context_from_trace_context(&tc("00-12345-678-01", "ignored", None)).unwrap();
    assert_eq!(parts.trace_id, 12345);
    assert_eq!(parts.span_id, 678);
    assert_eq!(parts.trace_flags, 0);
    assert!(parts.trace_state.is_none());
    let parts = span_context_from_trace_context(&tc("00-1-2-10", "", Some("k=v"))).unwrap();
    assert_eq!(parts.trace_flags, 1);
    assert!(parts.trace_state.is_some());
}

#[test]
fn span_context_from_plain_ids() {
    let parts = span_context_from_trace_context(&tc("99", "7", None)).unwrap();
    assert_eq!(parts.trace_id, 99);
    assert_eq!(parts.span_id, 7);
    assert_eq!(parts.trace_flags, 0);
}

#[test]
fn span_context_errors_in_order() {
    let e = span_context_from_trace_context(&tc("00-abc-1-01", "", None)).err();
    assert_eq!(e, Some(TraceContextError::InvalidTraceId));
    let e = span_context_from_trace_context(&tc("00-1-2-01", "", Some("not a list=="))).err();
    assert_eq!(e, Some(TraceContextError::InvalidTraceState));
    let e = span_context_from_trace_context(&tc("00-1-x-01", "", None)).err();
    assert_eq!(e, Some(TraceContextError::InvalidSpanId));
    let e = span_context_from_trace_context(&tc("00-1-2-x1", "", None)).err();
    assert_eq!(e, Some(TraceContextError::InvalidTraceFlags));
}

#[test]
fn checked_span_context_reports_empty_flags() {
    assert!(checked_span_context_from_trace_context(&tc("00-1-2-", "", None)).is_none());
    match checked_span_context_from_trace_context(&tc("00-1-2-01", "", None)) {
        Some(Ok(p)) => assert_eq!((p.trace_id, p.span_id, p.trace_flags), (1, 2, 0)),
        _ => panic!("expected a span context"),
    }
    // A bad trace id is reported before the empty flags are reached.
    assert!(matches!(
        checked_span_context_from_trace_context(&tc("00-q-2-", "", None)),
        Some(Err(TraceContextError::InvalidTraceId))
    ));
}

fn snapshot(sampled: bool, valid: bool, state: &str) -> SpanSnapshot {
    SpanSnapshot {
        sampled,
        valid,
        trace_id: 0xabc,
        span_id: 0x12,
        trace_flags: 1,
        trace_state_header: state.to_string(),
    }
}

#[test]
fn trace_context_of_a_sampled_valid_span() {
    let t = trace_from_context_span(Some(snapshot(true, true, ""))).unwrap();
    assert_eq!(t.trace_parent, "00-00000000000000000000000000000abc-0000000000000012-1");
    assert_eq!(t.span_id, "0000000000000012");
    assert_eq!(t.trace_state, None);
    let t = trace_from_context_span(Some(snapshot(true, true, "k=v"))).unwrap();
    assert_eq!(t.trace_state.as_deref(), Some("k=v"));
}

#[test]
fn no_trace_context_for_missing_unsampled_or_invalid_spans() {
    assert!(trace_from_context_span(None).is_none());
    assert!(trace_from_context_span(Some(snapshot(false, true, ""))).is_none());
    assert!(trace_from_context_span(Some(snapshot(true, false, ""))).is_none());
}

#[test]
fn propagated_trace_context_reads_back_the_written_texts() {
    let written = trace_from_context_span(Some(snapshot(true, true, ""))).unwrap();
    let parts: Vec<&str> = written.trace_parent.split('-').collect();
    assert_eq!(parts, vec!["00", "00000000000000000000000000000abc", "0000000000000012", "1"]);
    // The trace id was written in hexadecimal; the reader expects decimal.
    assert_eq!(
        span_context_from_trace_context(&written).err(),
        Some(TraceContextError::InvalidTraceId)
    );
    let mut digits_only = snapshot(true, true, "");
    digits_only.trace_id = 0x12;
    let written = trace_from_context_span(Some(digits_only)).unwrap();
    let read = span_context_from_trace_context(&written).unwrap();
    assert_eq!(read.trace_id, 12);
    assert_eq!(read.span_id, 12);
    assert_eq!(read.trace_flags, 1);
}

#[test]
fn checked_timer_span_names_its_timer() {
    let tf = TimerFiredEvent { fire_at: Some(Timestamp { seconds: 86_400, nanos: 0 }), timer_id: 42 };
    let s = checked_timer_span(&tf, "i-4").expect("span");
    assert!(s.task_name.is_empty());
    assert!(s.task_version.is_empty());
    assert_eq!(s.attributes[1].value, AttributeValue::Text("1970-01-02T00:00:00+00:00".to_string()));
    assert_eq!(s.attributes[3].key, "durabletask.task.task_id");
    assert_eq!(s.attributes[3].value, AttributeValue::Int(42));
}
