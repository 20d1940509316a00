use tracker::capture::{assemble_trace, plan_delivery, request_payload, response_payload};
use tracker::{
    begin_capture, capture_response, init_tracer, take_current_trace, Payload, Timestamp, TraceSlot,
    TracerRegistry,
};

fn entry(p: &Payload) -> (String, String) {
    match p {
        Payload::Text { key, text } => (key.clone(), text.clone()),
        Payload::Json(s) => panic!("expected a text entry, got {}", s),
    }
}

fn double(x: i32) -> Result<i32, String> {
    Ok(x * 2)
}

fn installed(address: &str) -> TracerRegistry {
    let mut registry = TracerRegistry::new();
    init_tracer(&mut registry, address.to_string());
    registry
}

#[test]
fn request_is_args_entry() {
    assert_eq!(entry(&request_payload("(5,)".to_string())), ("args".to_string(), "(5,)".to_string()));
}

#[test]
fn response_is_data_or_error_entry() {
    assert_eq!(entry(&response_payload(Ok("10".to_string()))), ("data".to_string(), "10".to_string()));
    assert_eq!(
        entry(&response_payload(Err("\"boom\"".to_string()))),
        ("error".to_string(), "\"boom\"".to_string())
    );
}

#[test]
fn assemble_sets_both_timestamps_to_start() {
    let now = Timestamp { secs: 1_700_000_123, nanos: 999_999_999 };
    let t = assemble_trace("01ARZ3NDEKTSV4RRFFQ69G5FAV".to_string(), now, "(1,)".to_string(), Ok("2".to_string()));
    assert_eq!(t.id, "01ARZ3NDEKTSV4RRFFQ69G5FAV");
    assert_eq!(t.created_at, now);
    assert_eq!(t.updated_at, now);
    assert_eq!(entry(&t.request).1, "(1,)");
    assert_eq!(entry(&t.response), ("data".to_string(), "2".to_string()));
}

#[test]
fn plan_without_store_does_nothing() {
    let registry = TracerRegistry::new();
    let mut slot = TraceSlot::new();
    let t = assemble_trace("x".to_string(), Timestamp { secs: 0, nanos: 0 }, "()".to_string(), Ok("()".to_string()));
    assert!(plan_delivery(&registry, &mut slot, t).is_none());
    assert!(take_current_trace(&mut slot).is_none());
}

#[test]
fn wrapped_call_without_store_is_transparent_and_silent() {
    let registry = TracerRegistry::new();
    let mut slot = TraceSlot::new();
    let result = double(5);
    let outcome = result.clone().map(|v| format!("{}", v)).map_err(|e| format!("{:?}", e));
    let (id, now) = begin_capture();
    let (r, delivery) = capture_response(&registry, &mut slot, id, now, format!("{:?}", (5,)), result, outcome);
    assert_eq!(r, Ok(10));
    assert!(delivery.is_none());
    assert!(take_current_trace(&mut slot).is_none());
}

#[test]
fn wrapped_call_delivers_one_trace() {
    let registry = installed("http://127.0.0.1:4000");
    let mut slot = TraceSlot::new();
    let (id, now) = begin_capture();
    let started_id = id.clone();
    let result = double(5);
    let outcome = result.clone().map(|v| format!("{}", v)).map_err(|e| format!("{:?}", e));
    let (r, delivery) = capture_response(&registry, &mut slot, id, now, format!("{:?}", (5,)), result, outcome);
    assert_eq!(r, Ok(10));
    let d = delivery.unwrap();
    assert_eq!(d.url, "http://127.0.0.1:4000/traces");
    assert_eq!(d.trace.id, started_id);
    assert_eq!(d.trace.created_at, now);
    assert_eq!(entry(&d.trace.response), ("data".to_string(), "10".to_string()));
    assert_eq!(entry(&d.trace.request), ("args".to_string(), "(5,)".to_string()));
    assert_eq!(d.trace.id.chars().count(), 26);
    assert_eq!(d.trace.created_at, d.trace.updated_at);
    assert!(d.trace.created_at.secs > 1_600_000_000);
    let current = take_current_trace(&mut slot).unwrap();
    assert_eq!(current.id, d.trace.id);
}

#[test]
fn failing_call_records_error() {
    let registry = installed("http://127.0.0.1:4000");
    let mut slot = TraceSlot::new();
    let result: Result<(), String> = Err("boom".to_string());
    let outcome = result.clone().map(|v| format!("{:?}", v)).map_err(|e| format!("{:?}", e));
    let (id, now) = begin_capture();
    let (r, delivery) = capture_response(&registry, &mut slot, id, now, format!("{:?}", ()), result, outcome);
    assert_eq!(r, Err("boom".to_string()));
    let d = delivery.unwrap();
    assert_eq!(entry(&d.trace.response), ("error".to_string(), "\"boom\"".to_string()));
    assert_eq!(entry(&d.trace.request), ("args".to_string(), "()".to_string()));
}

#[test]
fn unreachable_store_leaves_result_alone() {
    let registry = installed("http://unreachable.invalid:1");
    let mut slot = TraceSlot::new();
    let result = double(5);
    let (id, now) = begin_capture();
    let (r, delivery) = capture_response(&registry, &mut slot, id, now, "(5,)".to_string(), result, Ok("10".to_string()));
    assert_eq!(r, Ok(10));
    assert_eq!(delivery.unwrap().url, "http://unreachable.invalid:1/traces");
}

#[test]
fn trace_ids_are_distinct() {
    let registry = installed("http://127.0.0.1:4000");
    let mut slot = TraceSlot::new();
    let mut ids: Vec<String> = Vec::new();
    for i in 0..100 {
        let (id, now) = begin_capture();
        let (_, d) = capture_response(&registry, &mut slot, id, now, format!("({},)", i), double(i), Ok(format!("{}", i * 2)));
        ids.push(d.unwrap().trace.id);
    }
    let mut sorted = ids.clone();
    sorted.sort();
    sorted.dedup();
    assert_eq!(sorted.len(), 100);
}

#[test]
fn test_sync_capture_response() {
    let registry = installed("http://127.0.0.1:4001");
    let mut slot = TraceSlot::new();
    let (id, now) = begin_capture();
    let result = double(5);
    let outcome = result.clone().map(|v| format!("{}", v)).map_err(|e| format!("{:?}", e));
    let (result, delivery) = capture_response(&registry, &mut slot, id, now, format!("{:?}", (5,)), result, outcome);
    assert!(result.is_ok());
    assert_eq!(result.unwrap(), 10);
    assert_eq!(delivery.unwrap().url, "http://127.0.0.1:4001/traces");
}

#[test]
fn begin_capture_gives_fresh_id_and_current_time() {
    let (a, t) = begin_capture();
    let (b, _) = begin_capture();
    assert_eq!(a.chars().count(), 26);
    assert_ne!(a, b);
    assert!(t.secs > 1_600_000_000);
    assert!(t.nanos < 2_000_000_000);
}
