use vector_core::batch::{Batch, Batcher, BatcherConfig};
use vector_core::buffer::{Buffer, BufferConfig, PopOutcome, PushError};
use vector_core::dispatch::{
    aimd_update, backoff_for_attempt, complete_batch, next_step, run_dispatch, DispatchStep,
    RateLimiter, RetryPolicy, TransportClass,
};
use vector_core::durable::{append_record, replay};
use vector_core::event::{Event, EventKind, Field, Value};
use vector_core::fanout::Fanout;
use vector_core::finalizer::AckRegistry;
use vector_core::internal_events::{
    ConcatSubstringError, ConcatSubstringSourceMissing, LogLevel, LogValue, LookupBuf,
    RemoveFieldsFieldMissing,
};
use vector_core::status::{combine_status, EventStatus};
use vector_core::vrl_functions::{
    get_metadata_field, ArgumentList, Context, GetMetadataField, MetadataKey,
};

fn log_event(msg: &[u8], finalizer: usize) -> Event {
    Event {
        kind: EventKind::Log,
        fields: vec![Field { name: b"message".to_vec(), value: Value::Bytes(msg.to_vec()) }],
        finalizer,
    }
}

fn unbounded() -> BufferConfig {
    BufferConfig { max_events: None, max_bytes: None }
}

#[test]
fn buffer_preserves_push_order() {
    let mut buf = Buffer::new(unbounded());
    for i in 0..5u8 {
        buf.try_push(log_event(&[b'a' + i], 0)).unwrap();
    }
    for i in 0..5u8 {
        match buf.try_pop() {
            PopOutcome::Item(e) => match &e.fields[0].value {
                Value::Bytes(b) => assert_eq!(b, &vec![b'a' + i]),
                other => panic!("unexpected value {:?}", other),
            },
            other => panic!("expected an item, got {:?}", other),
        }
    }
    assert!(matches!(buf.try_pop(), PopOutcome::Pending));
}

#[test]
fn buffer_backpressure_full_then_pop_frees_capacity() {
    let mut buf = Buffer::new(BufferConfig { max_events: Some(2), max_bytes: None });
    buf.try_push(log_event(b"one", 0)).unwrap();
    buf.try_push(log_event(b"two", 0)).unwrap();
    // At capacity: the push is refused and nothing is dropped.
    assert_eq!(buf.try_push(log_event(b"three", 0)), Err(PushError::Full));
    assert_eq!(buf.len(), 2);
    // A pop frees exactly one slot.
    assert!(matches!(buf.try_pop(), PopOutcome::Item(_)));
    buf.try_push(log_event(b"three", 0)).unwrap();
    assert_eq!(buf.len(), 2);
}

#[test]
fn buffer_close_semantics() {
    let mut buf = Buffer::new(unbounded());
    buf.try_push(log_event(b"last", 0)).unwrap();
    buf.close();
    assert_eq!(buf.try_push(log_event(b"late", 0)), Err(PushError::Closed));
    assert!(matches!(buf.try_pop(), PopOutcome::Item(_)));
    assert!(matches!(buf.try_pop(), PopOutcome::Done));
}

#[test]
fn fanout_completeness_three_outputs() {
    let mut reg = AckRegistry::new();
    let mut fanout = Fanout::new();
    fanout.add_output(b"a".to_vec(), Buffer::new(unbounded())).unwrap();
    fanout.add_output(b"b".to_vec(), Buffer::new(unbounded())).unwrap();
    fanout.add_output(b"c".to_vec(), Buffer::new(unbounded())).unwrap();
    assert!(fanout.add_output(b"a".to_vec(), Buffer::new(unbounded())).is_err());

    let id = reg.new_finalizer(7);
    fanout.send(&mut reg, log_event(b"hello", id));

    // Each output received exactly one content-equal copy; three holders
    // remain registered on the finalizer (none reported yet).
    assert_eq!(reg.records[id].refs, 3);
    assert_eq!(reg.notifications.len(), 0);
    assert_eq!(fanout.len(), 3);
    for i in 0..3 {
        let out = fanout.output(i);
        assert_eq!(out.buffer.len(), 1);
        assert_eq!(*out.buffer.get(0), log_event(b"hello", id));
    }
}

#[test]
fn fanout_removed_output_gets_nothing() {
    let mut reg = AckRegistry::new();
    let mut fanout = Fanout::new();
    fanout.add_output(b"keep".to_vec(), Buffer::new(unbounded())).unwrap();
    fanout.add_output(b"gone".to_vec(), Buffer::new(unbounded())).unwrap();
    assert!(fanout.remove_output(&b"gone".to_vec()));
    assert!(!fanout.remove_output(&b"gone".to_vec()));
    assert_eq!(fanout.len(), 1);

    let id = reg.new_finalizer(1);
    fanout.send(&mut reg, log_event(b"only", id));
    assert_eq!(reg.records[id].refs, 1);
    assert_eq!(fanout.output(0).name, b"keep".to_vec());
    assert_eq!(fanout.output(0).buffer.len(), 1);
}

#[test]
fn fanout_dead_output_does_not_stall_siblings() {
    let mut reg = AckRegistry::new();
    let mut fanout = Fanout::new();
    let mut dead = Buffer::new(unbounded());
    dead.close();
    fanout.add_output(b"dead".to_vec(), dead).unwrap();
    fanout.add_output(b"live".to_vec(), Buffer::new(unbounded())).unwrap();

    let id = reg.new_finalizer(9);
    fanout.send(&mut reg, log_event(b"x", id));
    // Only the live output holds a reference and a copy.
    assert_eq!(reg.records[id].refs, 1);
    assert_eq!(reg.notifications.len(), 0);
    assert_eq!(fanout.output(0).buffer.len(), 0);
    assert_eq!(fanout.output(1).buffer.len(), 1);
}

#[test]
fn durable_replay_roundtrip_and_crash_prefix() {
    let mut storage: Vec<u8> = Vec::new();
    let payloads: Vec<Vec<u8>> = vec![b"first".to_vec(), b"second".to_vec(), b"third".to_vec()];
    for p in &payloads {
        append_record(&mut storage, p).unwrap();
    }
    // Intact disk: everything comes back, in order.
    assert_eq!(replay(&storage), payloads);

    // A crash that truncates mid-record loses only the tail record.
    let cut = storage.len() - 3;
    let truncated: Vec<u8> = storage[..cut].to_vec();
    assert_eq!(replay(&truncated), payloads[..2].to_vec());

    // A corrupted record truncates replay at that point.
    let mut corrupted = storage.clone();
    corrupted[9] ^= 0xff;
    assert_eq!(replay(&corrupted), Vec::<Vec<u8>>::new());
}

#[test]
fn batcher_count_trigger_emits_exactly_ten() {
    let cfg = BatcherConfig { max_events: Some(10), max_bytes: None, max_latency_ms: Some(100) };
    let mut batcher = Batcher::new(cfg);
    let now = 0u64;
    for i in 0..9u8 {
        assert!(batcher.push(log_event(&[i], 0), now).is_none());
    }
    // The tenth event closes the batch at once, without the time trigger.
    let batch: Batch = batcher.push(log_event(&[9], 0), now).unwrap();
    assert_eq!(batch.events.len(), 10);
    for (i, e) in batch.events.iter().enumerate() {
        assert_eq!(e.fields[0].value, Value::Bytes(vec![i as u8]));
    }
}

#[test]
fn batcher_latency_trigger_emits_three() {
    let cfg = BatcherConfig { max_events: Some(10), max_bytes: None, max_latency_ms: Some(100) };
    let mut batcher = Batcher::new(cfg);
    assert!(batcher.push(log_event(b"a", 0), 0).is_none());
    assert!(batcher.push(log_event(b"b", 0), 5).is_none());
    assert!(batcher.push(log_event(b"c", 0), 10).is_none());
    assert!(batcher.tick(99).is_none());
    let batch = batcher.tick(100).unwrap();
    assert_eq!(batch.events.len(), 3);
    assert!(batcher.tick(200).is_none());
}

#[test]
fn batcher_flush_on_closure() {
    let cfg = BatcherConfig { max_events: Some(10), max_bytes: None, max_latency_ms: None };
    let mut batcher = Batcher::new(cfg);
    assert!(batcher.flush().is_none());
    batcher.push(log_event(b"a", 0), 0);
    batcher.push(log_event(b"b", 0), 0);
    let batch = batcher.flush().unwrap();
    assert_eq!(batch.events.len(), 2);
}

#[test]
fn retry_twice_then_success_delivers_in_three_attempts() {
    let policy = RetryPolicy { max_attempts: 5, base_backoff_ms: 100, max_backoff_ms: 10_000 };
    let responses = vec![TransportClass::Retryable, TransportClass::Retryable, TransportClass::Success];
    let report = run_dispatch(&policy, &responses).unwrap();
    assert_eq!(report.status, EventStatus::Delivered);
    assert_eq!(report.attempts, 3);
    assert_eq!(report.backoffs, vec![100, 200]);
    assert!(report.backoffs[0] < report.backoffs[1]);
}

#[test]
fn retry_budget_exhaustion_errors() {
    let policy = RetryPolicy { max_attempts: 2, base_backoff_ms: 50, max_backoff_ms: 1_000 };
    let responses = vec![TransportClass::Retryable, TransportClass::Retryable];
    let report = run_dispatch(&policy, &responses).unwrap();
    assert_eq!(report.status, EventStatus::Errored);
    assert_eq!(report.attempts, 2);
}

#[test]
fn permanent_reject_drops_without_retry() {
    let policy = RetryPolicy { max_attempts: 5, base_backoff_ms: 50, max_backoff_ms: 1_000 };
    assert_eq!(
        next_step(&policy, 1, TransportClass::PermanentReject),
        DispatchStep::Done(EventStatus::Dropped)
    );
    assert_eq!(
        next_step(&policy, 1, TransportClass::PermanentError),
        DispatchStep::Done(EventStatus::Errored)
    );
    let report = run_dispatch(&policy, &vec![TransportClass::PermanentReject]).unwrap();
    assert_eq!(report.status, EventStatus::Dropped);
    assert_eq!(report.attempts, 1);
}

#[test]
fn incomplete_response_trace_is_not_resolved() {
    let policy = RetryPolicy { max_attempts: 5, base_backoff_ms: 50, max_backoff_ms: 1_000 };
    assert!(run_dispatch(&policy, &vec![TransportClass::Retryable]).is_none());
}

#[test]
fn backoff_doubles_up_to_ceiling() {
    let policy = RetryPolicy { max_attempts: 10, base_backoff_ms: 100, max_backoff_ms: 350 };
    assert_eq!(backoff_for_attempt(&policy, 1), 100);
    assert_eq!(backoff_for_attempt(&policy, 2), 200);
    assert_eq!(backoff_for_attempt(&policy, 3), 350);
    assert_eq!(backoff_for_attempt(&policy, 4), 350);
}

#[test]
fn finalizer_worst_outcome_wins_exactly_once() {
    let mut reg = AckRegistry::new();
    let id = reg.new_finalizer(42);
    reg.add_ref(id);
    reg.add_ref(id);
    // Three holders report in fanout order: Delivered, Dropped, Errored.
    reg.report(id, EventStatus::Delivered);
    assert_eq!(reg.notifications.len(), 0);
    reg.report(id, EventStatus::Dropped);
    assert_eq!(reg.notifications.len(), 0);
    reg.report(id, EventStatus::Errored);
    // The origin callback fired exactly once, with the worst outcome.
    assert_eq!(reg.notifications.len(), 1);
    assert_eq!(reg.notifications[0].token, 42);
    assert_eq!(reg.notifications[0].status, EventStatus::Errored);
    assert!(reg.records[id].done);
}

#[test]
fn combine_status_is_worst_wins() {
    assert_eq!(
        combine_status(EventStatus::Delivered, EventStatus::Delivered),
        EventStatus::Delivered
    );
    assert_eq!(combine_status(EventStatus::Delivered, EventStatus::Dropped), EventStatus::Dropped);
    assert_eq!(combine_status(EventStatus::Dropped, EventStatus::Delivered), EventStatus::Dropped);
    assert_eq!(combine_status(EventStatus::Dropped, EventStatus::Errored), EventStatus::Errored);
    assert_eq!(combine_status(EventStatus::Errored, EventStatus::Delivered), EventStatus::Errored);
}

#[test]
fn batch_outcome_fans_in_to_every_member() {
    let mut reg = AckRegistry::new();
    let a = reg.new_finalizer(1);
    let b = reg.new_finalizer(2);
    let batch = Batch {
        events: vec![log_event(b"a", a), log_event(b"b", b)],
        bytes: 0,
    };
    complete_batch(&mut reg, &batch, EventStatus::Delivered);
    assert_eq!(reg.notifications.len(), 2);
    assert_eq!(reg.notifications[0].token, 1);
    assert_eq!(reg.notifications[0].status, EventStatus::Delivered);
    assert_eq!(reg.notifications[1].token, 2);
    assert!(reg.records[a].done && reg.records[b].done);
}

#[test]
fn aimd_concurrency_bounds() {
    assert_eq!(aimd_update(4, false, 10), 5);
    assert_eq!(aimd_update(10, false, 10), 10);
    assert_eq!(aimd_update(8, true, 10), 4);
    assert_eq!(aimd_update(1, true, 10), 1);
}

#[test]
fn rate_limiter_window() {
    let mut rl = RateLimiter::new(1_000, 2, 0);
    assert!(rl.allow(10));
    assert!(rl.allow(20));
    assert!(!rl.allow(30));
    // The next window resets the count.
    assert!(rl.allow(1_000));
    assert!(rl.allow(1_500));
    assert!(!rl.allow(1_600));
}

#[test]
fn event_duplicate_is_content_equal() {
    let e = log_event(b"payload", 3);
    let copy = e.duplicate();
    assert_eq!(copy, e);
    assert!(e.byte_size() > 0);
}

#[test]
fn metadata_field_resolution() {
    let ctx = Context {
        secrets: vec![(b"datadog_api_key".to_vec(), b"SECRET-REDACTED".to_vec())],
        metadata: vec![(b"source_type".to_vec(), Value::Bytes(b"file".to_vec()))],
    };
    let v = get_metadata_field(&ctx, &MetadataKey::Legacy(b"datadog_api_key".to_vec())).unwrap();
    assert_eq!(v, Value::Bytes(b"SECRET-REDACTED".to_vec()));
    let v = get_metadata_field(&ctx, &MetadataKey::Legacy(b"missing".to_vec())).unwrap();
    assert_eq!(v, Value::Null);
    let v = get_metadata_field(&ctx, &MetadataKey::Query(b"source_type".to_vec())).unwrap();
    assert_eq!(v, Value::Bytes(b"file".to_vec()));

    let f = GetMetadataField;
    assert_eq!(f.identifier(), "get_metadata_field");
    assert_eq!(f.parameters().len(), 1);
    assert_eq!(f.examples()[0].result, "null");
    let compiled = f
        .compile(ArgumentList { key: Some(MetadataKey::Query(b"source_type".to_vec())) })
        .unwrap();
    let v = compiled.resolve(&ctx).unwrap();
    assert_eq!(v, Value::Bytes(b"file".to_vec()));
    assert!(!compiled.type_def().fallible);
    assert!(f.compile(ArgumentList { key: None }).is_err());
}

#[test]
fn internal_events_records() {
    let err = ConcatSubstringError {
        source: LookupBuf { path: "message".to_owned() },
        condition: "bounds".to_owned(),
        start: 4,
        end: 10,
        length: 6,
    };
    let rec = err.emit_logs();
    assert_eq!(rec.level, LogLevel::Error);
    assert_eq!(rec.message, "Substring error.");
    assert_eq!(rec.fields.len(), 5);
    match &rec.fields[2].value {
        LogValue::Unsigned(n) => assert_eq!(*n, 4),
        other => panic!("unexpected field value {:?}", other),
    }
    let counter = err.emit_metrics();
    assert_eq!(counter.name, "processing_errors_total");
    assert_eq!(counter.delta, 1);

    let rec = ConcatSubstringSourceMissing { source: LookupBuf { path: "src".to_owned() } }
        .emit_logs();
    assert_eq!(rec.message, "Substring source missing.");
    let rec = RemoveFieldsFieldMissing { field: LookupBuf { path: "f".to_owned() } }.emit_logs();
    assert_eq!(rec.message, "Field did not exist.");
    assert_eq!(rec.rate_limit_secs, 30);
}
