use llrt_web::transform_controller::{
    perform_cancel, perform_flush, transform_stream_default_controller_enqueue,
    transform_stream_default_controller_perform_transform,
    transform_stream_default_controller_perform_transform_settled,
    transform_stream_default_controller_terminate, transform_stream_error,
    transform_stream_error_writable_and_unblock_write, transform_stream_set_backpressure,
    EnqueueOutcome,
};
use llrt_web::transform_stream::{
    existing_finish_promise, require_readable_default_controller, sink_abort_algorithm,
    sink_abort_algorithm_settled, sink_close_algorithm, sink_close_algorithm_settled,
    sink_write_algorithm, sink_write_backpressure_settled, source_cancel_algorithm,
    source_cancel_algorithm_settled, source_pull_algorithm, start_algorithm_settled, start_finish,
    FinishStart, Transformer, WriteStep,
};
use llrt_web::transform_types::{
    readable_stored_error, writable_stored_error, writable_stored_error_if_errored,
    CancelAlgorithm, CancelStep, Effect, FlushAlgorithm, FlushStep, PromiseId, ReadableState,
    StartStep, TransformAlgorithm, TransformStep, TransformStream,
    TransformStreamDefaultController, TransformStreamError, ValueId, WritableState,
};

const OBJECT: ValueId = 500;
const START: ValueId = 501;
const TRANSFORM: ValueId = 502;
const FLUSH: ValueId = 503;
const CANCEL: ValueId = 504;
const CONTROLLER: ValueId = 600;

fn transformer(start: bool, transform: bool, flush: bool, cancel: bool) -> Transformer {
    Transformer {
        object: Some(OBJECT),
        start: start.then_some(START),
        transform: transform.then_some(TRANSFORM),
        flush: flush.then_some(FLUSH),
        cancel: cancel.then_some(CANCEL),
        readable_type: false,
        writable_type: false,
    }
}

fn stream_with(t: Transformer) -> TransformStream {
    TransformStream::new(&t, 1).unwrap()
}

fn default_stream() -> TransformStream {
    stream_with(Transformer::default())
}

/// A readable side with a queue and a high-water mark, a reader, and a
/// writable side whose writes run one after another, around a verified
/// stream. Values are strings, found again by their handle.
struct Harness {
    stream: TransformStream,
    values: Vec<String>,
    resolved: Vec<PromiseId>,
    next_promise: PromiseId,
    high_water_mark: usize,
    queue: Vec<ValueId>,
    pending_reads: usize,
    read: Vec<ValueId>,
    readable_closed: bool,
    writes: Vec<ValueId>,
    transformed: Vec<ValueId>,
    upper_case: bool,
}

impl Harness {
    fn new(t: Transformer, high_water_mark: usize, upper_case: bool) -> Harness {
        let mut h = Harness {
            stream: stream_with(t),
            values: Vec::new(),
            resolved: Vec::new(),
            next_promise: 2,
            high_water_mark,
            queue: Vec::new(),
            pending_reads: 0,
            read: Vec::new(),
            readable_closed: false,
            writes: Vec::new(),
            transformed: Vec::new(),
            upper_case,
        };
        h.pull_if_needed();
        h
    }

    fn value(&mut self, s: &str) -> ValueId {
        self.values.push(s.to_string());
        (self.values.len() - 1) as ValueId
    }

    fn promise(&mut self) -> PromiseId {
        self.next_promise += 1;
        self.next_promise
    }

    fn run(&mut self, effects: Vec<Effect>) {
        for effect in effects {
            match effect {
                Effect::ResolvePromise(p) => self.resolved.push(p),
                Effect::CloseReadable => self.readable_closed = true,
                other => panic!("unexpected effect {other:?}"),
            }
        }
    }

    fn desired_size(&self) -> isize {
        self.high_water_mark as isize - self.queue.len() as isize
    }

    fn pull_if_needed(&mut self) {
        if self.desired_size() > 0 || self.pending_reads > 0 {
            let p = self.promise();
            let effects = source_pull_algorithm(&mut self.stream, p);
            self.run(effects);
            self.pump();
        }
    }

    fn enqueue(&mut self, chunk: ValueId) {
        if self.pending_reads > 0 {
            self.pending_reads -= 1;
            self.read.push(chunk);
        } else {
            self.queue.push(chunk);
        }
        let has_backpressure = self.desired_size() <= 0;
        let p = self.promise();
        let (effects, result) = transform_stream_default_controller_enqueue(
            &mut self.stream,
            EnqueueOutcome::Accepted { has_backpressure },
            p,
        );
        assert_eq!(result, Ok(()));
        self.run(effects);
    }

    fn pump(&mut self) {
        while let Some(&chunk) = self.writes.first() {
            if let WriteStep::AwaitBackpressure(p) = sink_write_algorithm(&self.stream) {
                if !self.resolved.contains(&p) {
                    return;
                }
                assert_eq!(
                    sink_write_backpressure_settled(&WritableState::Writable),
                    Ok(())
                );
            }
            self.writes.remove(0);
            let step = transform_stream_default_controller_perform_transform(
                &self.stream.controller,
                chunk,
                CONTROLLER,
            );
            match step {
                TransformStep::Enqueue { chunk } => self.enqueue(chunk),
                TransformStep::Call {
                    method,
                    receiver,
                    chunk,
                    controller,
                } => {
                    assert_eq!((method, receiver, controller), (TRANSFORM, Some(OBJECT), CONTROLLER));
                    self.transformed.push(chunk);
                    let out = if self.upper_case {
                        let upper = self.values[chunk as usize].to_uppercase();
                        self.value(&upper)
                    } else {
                        chunk
                    };
                    self.enqueue(out);
                },
            }
            let (effects, result) =
                transform_stream_default_controller_perform_transform_settled(
                    &mut self.stream,
                    Ok(()),
                );
            assert!(effects.is_empty());
            assert_eq!(result, Ok(()));
            self.pull_if_needed();
        }
    }

    fn write(&mut self, s: &str) {
        let chunk = self.value(s);
        self.writes.push(chunk);
        self.pump();
    }

    fn close(&mut self) {
        assert!(self.writes.is_empty());
        let finish = self.promise();
        match sink_close_algorithm(&mut self.stream, finish, CONTROLLER) {
            FinishStart::Started {
                finish,
                algorithm: FlushStep::Fulfilled,
            } => {
                let effects = sink_close_algorithm_settled(
                    &mut self.stream,
                    finish,
                    Ok(()),
                    &ReadableState::Readable,
                );
                self.run(effects);
                assert!(self.resolved.contains(&finish));
            },
            other => panic!("unexpected close {other:?}"),
        }
    }

    /// Reads one chunk; `None` once the readable side is closed and drained.
    fn read_one(&mut self) -> Option<String> {
        if !self.queue.is_empty() {
            let chunk = self.queue.remove(0);
            self.pull_if_needed();
            return Some(self.values[chunk as usize].clone());
        }
        if self.readable_closed {
            return None;
        }
        let before = self.read.len();
        self.pending_reads += 1;
        self.pull_if_needed();
        if self.read.len() > before {
            Some(self.values[self.read[before] as usize].clone())
        } else {
            None
        }
    }

    fn names(&self, ids: &[ValueId]) -> String {
        ids.iter()
            .map(|&id| self.values[id as usize].clone())
            .collect::<Vec<_>>()
            .join(",")
    }
}

#[test]
fn identity_passthrough() {
    let mut h = Harness::new(Transformer::default(), 0, false);
    h.write("one");
    h.write("two");
    let mut chunks = Vec::new();
    while let Some(chunk) = h.read_one() {
        chunks.push(chunk);
        if chunks.len() == 2 {
            h.close();
        }
    }
    assert_eq!(chunks.join(","), "one,two");
    assert!(h.readable_closed);
}

#[test]
fn transform_chunks() {
    let mut h = Harness::new(transformer(false, true, false, false), 0, true);
    h.write("hello");
    h.write("world");
    let mut chunks = Vec::new();
    while let Some(chunk) = h.read_one() {
        chunks.push(chunk);
        if chunks.len() == 2 {
            h.close();
        }
    }
    assert_eq!(chunks.join(" "), "HELLO WORLD");
    assert_eq!(h.names(&h.transformed.clone()), "hello,world");
}

#[test]
fn readable_high_water_mark_applies_backpressure() {
    let mut h = Harness::new(transformer(false, true, false, false), 3, false);
    for chunk in ["0", "1", "2", "3"] {
        h.write(chunk);
    }
    assert_eq!(h.names(&h.transformed.clone()), "0,1,2");
    assert_eq!(h.read_one().as_deref(), Some("0"));
    assert_eq!(h.names(&h.transformed.clone()), "0,1,2,3");
}

#[test]
fn transformer_methods_become_algorithms() {
    let t = transformer(true, true, true, true);
    let stream = stream_with(t);
    assert_eq!(
        stream.controller.transform_algorithm,
        Some(TransformAlgorithm::Function {
            method: TRANSFORM,
            receiver: Some(OBJECT)
        })
    );
    assert_eq!(
        perform_flush(&stream.controller, CONTROLLER),
        FlushStep::Call {
            method: FLUSH,
            receiver: Some(OBJECT),
            controller: CONTROLLER
        }
    );
    assert_eq!(
        perform_cancel(&stream.controller, 77),
        CancelStep::Call {
            method: CANCEL,
            receiver: Some(OBJECT),
            reason: 77
        }
    );
    assert_eq!(
        t.start_algorithm(CONTROLLER),
        StartStep::Call {
            method: START,
            receiver: Some(OBJECT),
            controller: CONTROLLER
        }
    );
}

#[test]
fn start_promise_settles_with_start_outcome() {
    assert_eq!(
        Transformer::default().start_algorithm(CONTROLLER),
        StartStep::Fulfilled
    );
    assert_eq!(
        start_algorithm_settled(9, Ok(10)),
        Effect::ResolvePromiseWith(9, 10)
    );
    assert_eq!(
        start_algorithm_settled(9, Err(11)),
        Effect::RejectPromise(9, 11)
    );
}

#[test]
fn identity_stream_has_no_transformer_methods() {
    let stream = default_stream();
    assert!(stream.backpressure);
    assert_eq!(stream.backpressure_change_promise, Some(1));
    assert_eq!(
        stream.controller.transform_algorithm,
        Some(TransformAlgorithm::Identity)
    );
    assert_eq!(stream.controller.flush_algorithm, Some(FlushAlgorithm::Noop));
    assert_eq!(stream.controller.cancel_algorithm, Some(CancelAlgorithm::Noop));
    assert_eq!(stream.controller.finish_promise, None);
    assert_eq!(
        transform_stream_default_controller_perform_transform(&stream.controller, 42, CONTROLLER),
        TransformStep::Enqueue { chunk: 42 }
    );
    assert_eq!(perform_flush(&stream.controller, CONTROLLER), FlushStep::Fulfilled);
    assert_eq!(perform_cancel(&stream.controller, 1), CancelStep::Fulfilled);
}

#[test]
fn readable_and_writable_types_are_refused() {
    let readable = Transformer {
        readable_type: true,
        writable_type: true,
        ..Transformer::default()
    };
    let err = TransformStream::new(&readable, 1).unwrap_err();
    assert_eq!(err, TransformStreamError::ReadableTypeUnsupported);
    assert!(err.is_range_error());
    assert_eq!(err.message(), "readableType is not supported");

    let writable = Transformer {
        writable_type: true,
        ..Transformer::default()
    };
    let err = TransformStream::new(&writable, 1).unwrap_err();
    assert_eq!(err, TransformStreamError::WritableTypeUnsupported);
    assert_eq!(err.message(), "writableType is not supported");
}

#[test]
fn illegal_constructor() {
    let err = TransformStreamDefaultController::new().unwrap_err();
    assert_eq!(err, TransformStreamError::IllegalConstructor);
    assert!(!err.is_range_error());
    assert_eq!(err.message(), "Illegal constructor");
}

#[test]
fn flush_on_close() {
    let mut stream = stream_with(transformer(false, false, true, false));
    let start = sink_close_algorithm(&mut stream, 7, CONTROLLER);
    assert_eq!(
        start,
        FinishStart::Started {
            finish: 7,
            algorithm: FlushStep::Call {
                method: FLUSH,
                receiver: Some(OBJECT),
                controller: CONTROLLER
            }
        }
    );
    assert_eq!(stream.controller.finish_promise, Some(7));
    assert_eq!(stream.controller.flush_algorithm, None);
    let effects =
        sink_close_algorithm_settled(&mut stream, 7, Ok(()), &ReadableState::Readable);
    assert_eq!(
        effects,
        vec![
            Effect::ResolvePromise(1),
            Effect::CloseReadable,
            Effect::ResolvePromise(7)
        ]
    );
    assert_eq!(stream.backpressure_change_promise, None);
}

#[test]
fn error_propagates_to_reader() {
    let mut stream = default_stream();
    let effects = transform_stream_error(&mut stream, 40);
    assert_eq!(
        effects,
        vec![
            Effect::ErrorReadable(40),
            Effect::ErrorWritableIfNeeded(40),
            Effect::ResolvePromise(1)
        ]
    );
    assert!(!stream.backpressure);
    assert_eq!(stream.backpressure_change_promise, None);
    assert_eq!(stream.controller.transform_algorithm, None);
    assert_eq!(stream.controller.flush_algorithm, None);
    assert_eq!(stream.controller.cancel_algorithm, None);
}

#[test]
fn synchronous_transform_error_rejects_both_sides() {
    let mut stream = stream_with(transformer(false, true, false, false));
    source_pull_algorithm(&mut stream, 2);
    let step =
        transform_stream_default_controller_perform_transform(&stream.controller, 30, CONTROLLER);
    assert_eq!(
        step,
        TransformStep::Call {
            method: TRANSFORM,
            receiver: Some(OBJECT),
            chunk: 30,
            controller: CONTROLLER
        }
    );
    // The transform threw 50.
    let (effects, result) =
        transform_stream_default_controller_perform_transform_settled(&mut stream, Err(50));
    assert_eq!(
        effects,
        vec![
            Effect::ErrorReadable(50),
            Effect::ErrorWritableIfNeeded(50),
            Effect::ResolvePromise(2)
        ]
    );
    assert_eq!(result, Err(TransformStreamError::Thrown(50)));
    assert_eq!(stream.controller.transform_algorithm, None);
}

#[test]
fn asynchronous_transform_error_rejects_both_sides() {
    let mut stream = stream_with(transformer(false, true, false, false));
    // The transform's promise rejected with 51 while a write waited nowhere.
    let (effects, result) =
        transform_stream_default_controller_perform_transform_settled(&mut stream, Err(51));
    assert_eq!(
        effects,
        vec![
            Effect::ErrorReadable(51),
            Effect::ErrorWritableIfNeeded(51),
            Effect::ResolvePromise(1)
        ]
    );
    assert_eq!(result, Err(TransformStreamError::Thrown(51)));
    let before = stream;
    let (effects, result) =
        transform_stream_default_controller_perform_transform_settled(&mut stream, Ok(()));
    assert!(effects.is_empty());
    assert_eq!(result, Ok(()));
    assert_eq!(stream, before);
}

#[test]
fn caught_enqueue_size_error_still_errors_writable() {
    let mut stream = default_stream();
    let (effects, result) = transform_stream_default_controller_enqueue(
        &mut stream,
        EnqueueOutcome::Threw {
            reason: 60,
            stored_error: Some(60),
        },
        9,
    );
    assert_eq!(
        effects,
        vec![Effect::ErrorWritableIfNeeded(60), Effect::ResolvePromise(1)]
    );
    assert_eq!(result, Err(TransformStreamError::Thrown(60)));
    assert_eq!(stream.controller.transform_algorithm, None);
}

#[test]
fn enqueue_throws_readable_stored_error() {
    let mut stream = default_stream();
    let (effects, result) = transform_stream_default_controller_enqueue(
        &mut stream,
        EnqueueOutcome::Threw {
            reason: 61,
            stored_error: Some(62),
        },
        9,
    );
    assert_eq!(effects[0], Effect::ErrorWritableIfNeeded(61));
    assert_eq!(result, Err(TransformStreamError::Thrown(62)));
}

#[test]
fn enqueue_failure_without_stored_error_is_a_type_error() {
    let mut stream = default_stream();
    let (_, result) = transform_stream_default_controller_enqueue(
        &mut stream,
        EnqueueOutcome::Threw {
            reason: 61,
            stored_error: None,
        },
        9,
    );
    let err = result.unwrap_err();
    assert_eq!(err, TransformStreamError::EnqueueFailedWithoutStoredError);
    assert_eq!(err.message(), "readable enqueue failed without a stored error");
}

#[test]
fn enqueue_after_terminate_throws() {
    let mut stream = default_stream();
    let effects = transform_stream_default_controller_terminate(&mut stream, 70);
    assert_eq!(
        effects,
        vec![
            Effect::CloseReadable,
            Effect::ErrorWritableIfNeeded(70),
            Effect::ResolvePromise(1)
        ]
    );
    let before = stream;
    let (effects, result) =
        transform_stream_default_controller_enqueue(&mut stream, EnqueueOutcome::NotPermitted, 9);
    assert!(effects.is_empty());
    let err = result.unwrap_err();
    assert_eq!(err, TransformStreamError::EnqueueNotPermitted);
    assert_eq!(err.message(), "The stream is not in a state that permits enqueue");
    assert_eq!(stream, before);
}

#[test]
fn terminate_rejects_write_waiting_on_backpressure() {
    let mut stream = default_stream();
    assert_eq!(sink_write_algorithm(&stream), WriteStep::AwaitBackpressure(1));
    let effects = transform_stream_default_controller_terminate(&mut stream, 71);
    assert!(effects.contains(&Effect::ResolvePromise(1)));
    assert_eq!(
        sink_write_backpressure_settled(&WritableState::Erroring(71)),
        Err(TransformStreamError::Thrown(71))
    );
    assert_eq!(sink_write_algorithm(&stream), WriteStep::PerformTransform);
}

#[test]
fn writable_abort_errors_readable_with_exact_reason() {
    let mut stream = stream_with(transformer(false, false, false, true));
    let start = sink_abort_algorithm(&mut stream, 8, 80);
    assert_eq!(
        start,
        FinishStart::Started {
            finish: 8,
            algorithm: CancelStep::Call {
                method: CANCEL,
                receiver: Some(OBJECT),
                reason: 80
            }
        }
    );
    let effects = sink_abort_algorithm_settled(8, 80, Ok(()), &ReadableState::Readable);
    assert_eq!(
        effects,
        vec![Effect::ErrorReadable(80), Effect::ResolvePromise(8)]
    );
    let effects = sink_abort_algorithm_settled(8, 80, Err(81), &ReadableState::Readable);
    assert_eq!(
        effects,
        vec![Effect::ErrorReadable(81), Effect::RejectPromise(8, 81)]
    );
}

#[test]
fn parallel_cancel_and_close_share_finish_promise() {
    let mut stream = stream_with(transformer(false, false, true, true));
    let cancel = source_cancel_algorithm(&mut stream, 10, 90);
    assert_eq!(
        cancel,
        FinishStart::Started {
            finish: 10,
            algorithm: CancelStep::Call {
                method: CANCEL,
                receiver: Some(OBJECT),
                reason: 90
            }
        }
    );
    let before = stream;
    let close = sink_close_algorithm(&mut stream, 11, CONTROLLER);
    assert_eq!(close, FinishStart::Existing(10));
    assert_eq!(stream, before);
    // The cancel rejects: the writable side is errored with its error, and
    // the shared finish promise rejects with it. Flush never ran.
    let effects =
        source_cancel_algorithm_settled(&mut stream, 10, 90, Err(91), &WritableState::Writable);
    assert_eq!(
        effects,
        vec![
            Effect::ErrorWritableIfNeeded(91),
            Effect::ResolvePromise(1),
            Effect::RejectPromise(10, 91)
        ]
    );
}

#[test]
fn reentrant_cancel_runs_transformer_cancel_once() {
    let mut stream = stream_with(transformer(false, false, false, true));
    let abort = sink_abort_algorithm(&mut stream, 12, 92);
    assert!(matches!(
        abort,
        FinishStart::Started {
            finish: 12,
            algorithm: CancelStep::Call { reason: 92, .. }
        }
    ));
    // Called again from inside the transformer's cancel method.
    assert_eq!(
        source_cancel_algorithm(&mut stream, 13, 93),
        FinishStart::Existing(12)
    );
    assert_eq!(
        sink_abort_algorithm(&mut stream, 14, 94),
        FinishStart::Existing(12)
    );
    assert_eq!(existing_finish_promise(&stream.controller), Some(12));
}

#[test]
fn controller_error_during_flush_rejects_close() {
    let mut stream = stream_with(transformer(false, false, true, false));
    sink_close_algorithm(&mut stream, 15, CONTROLLER);
    let before = stream;
    let effects =
        sink_close_algorithm_settled(&mut stream, 15, Ok(()), &ReadableState::Errored(100));
    assert_eq!(effects, vec![Effect::RejectPromise(15, 100)]);
    assert_eq!(stream, before);
}

#[test]
fn finish_algorithms_preserve_existing_stream_error() {
    // Close: the flush errored the readable side, then threw.
    let mut stream = stream_with(transformer(false, false, true, false));
    sink_close_algorithm(&mut stream, 16, CONTROLLER);
    let effects =
        sink_close_algorithm_settled(&mut stream, 16, Err(101), &ReadableState::Errored(102));
    assert_eq!(effects, vec![Effect::RejectPromise(16, 102)]);

    // Abort: the cancel errored the readable side, then threw.
    let effects = sink_abort_algorithm_settled(17, 103, Err(104), &ReadableState::Errored(105));
    assert_eq!(effects, vec![Effect::RejectPromise(17, 105)]);

    // Cancel: the cancel errored the writable side, then threw.
    let mut stream = stream_with(transformer(true, false, false, true));
    source_cancel_algorithm(&mut stream, 18, 106);
    let before = stream;
    let effects = source_cancel_algorithm_settled(
        &mut stream,
        18,
        106,
        Err(107),
        &WritableState::Errored(108),
    );
    assert_eq!(effects, vec![Effect::RejectPromise(18, 108)]);
    assert_eq!(stream, before);
}

#[test]
fn erroring_writable_side_does_not_win_a_cancel() {
    let mut stream = stream_with(transformer(false, false, false, true));
    source_cancel_algorithm(&mut stream, 19, 109);
    let effects = source_cancel_algorithm_settled(
        &mut stream,
        19,
        109,
        Ok(()),
        &WritableState::Erroring(110),
    );
    assert_eq!(
        effects,
        vec![
            Effect::ErrorWritableIfNeeded(109),
            Effect::ResolvePromise(1),
            Effect::ResolvePromise(19)
        ]
    );
}

#[test]
fn fulfilled_cancel_errors_writable_with_original_reason() {
    let mut stream = stream_with(transformer(false, false, false, true));
    let start = source_cancel_algorithm(&mut stream, 20, 111);
    assert_eq!(
        start,
        FinishStart::Started {
            finish: 20,
            algorithm: CancelStep::Call {
                method: CANCEL,
                receiver: Some(OBJECT),
                reason: 111
            }
        }
    );
    let effects =
        source_cancel_algorithm_settled(&mut stream, 20, 111, Ok(()), &WritableState::Writable);
    assert_eq!(
        effects,
        vec![
            Effect::ErrorWritableIfNeeded(111),
            Effect::ResolvePromise(1),
            Effect::ResolvePromise(20)
        ]
    );
    assert!(!stream.backpressure);
}

#[test]
fn rejected_cancel_errors_writable_with_rejection_reason() {
    let mut stream = stream_with(transformer(false, false, false, true));
    source_cancel_algorithm(&mut stream, 21, 112);
    let effects =
        source_cancel_algorithm_settled(&mut stream, 21, 112, Err(113), &WritableState::Writable);
    assert_eq!(
        effects,
        vec![
            Effect::ErrorWritableIfNeeded(113),
            Effect::ResolvePromise(1),
            Effect::RejectPromise(21, 113)
        ]
    );
}

#[test]
fn rejected_flush_errors_readable() {
    let mut stream = stream_with(transformer(false, false, true, false));
    sink_close_algorithm(&mut stream, 22, CONTROLLER);
    let effects =
        sink_close_algorithm_settled(&mut stream, 22, Err(114), &ReadableState::Readable);
    assert_eq!(
        effects,
        vec![Effect::ErrorReadable(114), Effect::RejectPromise(22, 114)]
    );
}

#[test]
fn set_backpressure_replaces_promise() {
    let mut stream = default_stream();
    let effects = transform_stream_set_backpressure(&mut stream, false, 30);
    assert_eq!(effects, vec![Effect::ResolvePromise(1)]);
    assert_eq!(stream.backpressure_change_promise, Some(30));
    assert!(!stream.backpressure);
    let effects = transform_stream_set_backpressure(&mut stream, true, 31);
    assert_eq!(effects, vec![Effect::ResolvePromise(30)]);
    assert!(stream.backpressure);
}

#[test]
fn unblock_without_pending_promise() {
    let mut stream = default_stream();
    transform_stream_error_writable_and_unblock_write(&mut stream, 5);
    let effects = transform_stream_error_writable_and_unblock_write(&mut stream, 6);
    assert_eq!(effects, vec![Effect::ErrorWritableIfNeeded(6)]);
}

#[test]
fn cleared_controller_runs_nothing() {
    let mut controller = stream_with(transformer(true, true, true, true)).controller;
    controller.clear_algorithms();
    assert_eq!(perform_flush(&controller, CONTROLLER), FlushStep::Fulfilled);
    assert_eq!(perform_cancel(&controller, 3), CancelStep::Fulfilled);
    start_finish(&mut controller, 3);
    assert_eq!(existing_finish_promise(&controller), Some(3));
}

#[test]
fn stored_errors_of_each_side() {
    assert_eq!(readable_stored_error(&ReadableState::Errored(1)), Some(1));
    assert_eq!(readable_stored_error(&ReadableState::Closed), None);
    assert_eq!(readable_stored_error(&ReadableState::Readable), None);
    assert_eq!(writable_stored_error(&WritableState::Erroring(2)), Some(2));
    assert_eq!(writable_stored_error(&WritableState::Errored(3)), Some(3));
    assert_eq!(writable_stored_error(&WritableState::Closed), None);
    assert_eq!(writable_stored_error_if_errored(&WritableState::Erroring(2)), None);
    assert_eq!(writable_stored_error_if_errored(&WritableState::Errored(3)), Some(3));
}

#[test]
fn missing_readable_controller_is_a_type_error() {
    assert_eq!(require_readable_default_controller(true), Ok(()));
    let err = require_readable_default_controller(false).unwrap_err();
    assert_eq!(err, TransformStreamError::ReadableControllerUnavailable);
    assert_eq!(err.message(), "readable controller not available");
}

#[test]
fn cleared_algorithms_stay_cleared_and_finish_is_kept() {
    let mut stream = stream_with(transformer(true, true, true, true));
    sink_close_algorithm(&mut stream, 40, CONTROLLER);
    let cleared = |s: &TransformStream| {
        s.controller.transform_algorithm.is_none()
            && s.controller.flush_algorithm.is_none()
            && s.controller.cancel_algorithm.is_none()
    };
    assert!(cleared(&stream));
    source_pull_algorithm(&mut stream, 41);
    transform_stream_default_controller_enqueue(
        &mut stream,
        EnqueueOutcome::Accepted {
            has_backpressure: true,
        },
        42,
    );
    transform_stream_error(&mut stream, 43);
    transform_stream_default_controller_perform_transform_settled(&mut stream, Err(46));
    sink_close_algorithm_settled(&mut stream, 40, Ok(()), &ReadableState::Readable);
    source_cancel_algorithm_settled(&mut stream, 40, 44, Ok(()), &WritableState::Writable);
    assert!(cleared(&stream));
    assert_eq!(stream.controller.finish_promise, Some(40));
    assert_eq!(
        sink_abort_algorithm(&mut stream, 45, 47),
        FinishStart::Existing(40)
    );
}

#[test]
fn replaced_backpressure_promise_is_resolved() {
    let mut stream = default_stream();
    let (effects, _) = transform_stream_default_controller_enqueue(
        &mut stream,
        EnqueueOutcome::Accepted {
            has_backpressure: false,
        },
        2,
    );
    assert_eq!(effects, vec![Effect::ResolvePromise(1)]);
    assert_eq!(stream.backpressure_change_promise, Some(2));
    let mut closing = stream;
    sink_close_algorithm(&mut closing, 3, CONTROLLER);
    let effects = sink_close_algorithm_settled(&mut closing, 3, Ok(()), &ReadableState::Readable);
    assert_eq!(effects[0], Effect::ResolvePromise(2));
    assert_eq!(closing.backpressure_change_promise, None);
}
