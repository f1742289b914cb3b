//! `TransformStream`: its construction, and the sink (write, close, abort)
//! and source (pull, cancel) algorithms that connect its two sides.
//!
//! A close, an abort and a cancel each run in two steps: the first starts
//! the finish (or finds the one already started) and names the transformer
//! method to run; the second, once that method's promise has settled, says
//! how the finish promise settles.
use vstd::prelude::*;
use crate::transform_types::{
    readable_error, resolve_if_some, writable_error, writable_error_if_errored, CancelAlgorithm,
    CancelStep, Effect, FlushAlgorithm, FlushStep, PromiseId, ReadableState, StartStep,
    TransformAlgorithm, TransformStream, TransformStreamDefaultController, TransformStreamError,
    ValueId, WritableState, readable_stored_error, writable_stored_error,
    writable_stored_error_if_errored, push_resolve_if_some,
};
use crate::transform_controller::{
    with_cleared_algorithms, unblocked, unblock_effects, with_backpressure, perform_flush,
    perform_cancel, flush_step, cancel_step, transform_stream_error_writable_and_unblock_write,
    transform_stream_set_backpressure,
};

verus! {

/// The transformer object as the stream reads it: the object itself (the
/// `this` of its methods), its `start`, `transform`, `flush` and `cancel`
/// methods where it has them, and whether it asks for a readable or writable
/// type (which is not supported).
#[derive(Clone, Copy, Debug, PartialEq, Eq, Structural, Default)]
pub struct Transformer {
    pub object: Option<ValueId>,
    pub start: Option<ValueId>,
    pub transform: Option<ValueId>,
    pub flush: Option<ValueId>,
    pub cancel: Option<ValueId>,
    pub readable_type: bool,
    pub writable_type: bool,
}

/// The next step of a write.
#[derive(Clone, Copy, Debug, PartialEq, Eq, Structural)]
pub enum WriteStep {
    /// Wait for the promise, then continue with
    /// `sink_write_backpressure_settled`.
    AwaitBackpressure(PromiseId),
    /// Run the transform algorithm now.
    PerformTransform,
}

/// How a close, an abort or a cancel starts.
#[derive(Clone, Copy, Debug, PartialEq, Eq, Structural)]
pub enum FinishStart<A> {
    /// A finishing algorithm already ran: return its promise, run nothing.
    Existing(PromiseId),
    /// This is the first: return `finish`, run `algorithm`, and settle
    /// `finish` when the algorithm's promise settles.
    Started { finish: PromiseId, algorithm: A },
}

/// The controller that a transformer gives: each method it has becomes an
/// algorithm that calls it with the transformer as `this`.
pub open spec fn initial_controller(t: Transformer) -> TransformStreamDefaultController {
    TransformStreamDefaultController {
        transform_algorithm: Some(
            match t.transform {
                Some(m) => TransformAlgorithm::Function { method: m, receiver: t.object },
                None => TransformAlgorithm::Identity,
            },
        ),
        flush_algorithm: Some(
            match t.flush {
                Some(m) => FlushAlgorithm::Function { method: m, receiver: t.object },
                None => FlushAlgorithm::Noop,
            },
        ),
        cancel_algorithm: Some(
            match t.cancel {
                Some(m) => CancelAlgorithm::Function { method: m, receiver: t.object },
                None => CancelAlgorithm::Noop,
            },
        ),
        finish_promise: None,
    }
}

/// What starting the stream runs: the transformer's `start` with the
/// controller object, with the transformer as `this`.
pub open spec fn start_step(t: Transformer, controller: ValueId) -> StartStep {
    match t.start {
        Some(m) => StartStep::Call { method: m, receiver: t.object, controller: controller },
        None => StartStep::Fulfilled,
    }
}

/// How the start promise settles: with what `start` returned, or with what
/// it threw.
pub open spec fn start_settled(start_promise: PromiseId, result: Result<ValueId, ValueId>) -> Effect {
    match result {
        Ok(v) => Effect::ResolvePromiseWith(start_promise, v),
        Err(e) => Effect::RejectPromise(start_promise, e),
    }
}

/// A new stream: backpressure on, with `p` as the promise that writes wait on.
pub open spec fn initial_stream(t: Transformer, p: PromiseId) -> TransformStream {
    TransformStream {
        backpressure: true,
        backpressure_change_promise: Some(p),
        controller: initial_controller(t),
    }
}

/// The next step of a write.
pub open spec fn write_step(s: TransformStream) -> WriteStep {
    if s.backpressure && s.backpressure_change_promise is Some {
        WriteStep::AwaitBackpressure(s.backpressure_change_promise->0)
    } else {
        WriteStep::PerformTransform
    }
}

/// The stream once a finishing algorithm has started with `finish` as its
/// promise: the algorithms are dropped.
pub open spec fn finishing(s: TransformStream, finish: PromiseId) -> TransformStream {
    TransformStream {
        controller: TransformStreamDefaultController {
            finish_promise: Some(finish),
            ..with_cleared_algorithms(s.controller)
        },
        ..s
    }
}

/// How a close starts; `controller` is the controller object that a flush
/// receives.
pub open spec fn close_start(s: TransformStream, finish: PromiseId, controller: ValueId) -> (
    TransformStream,
    FinishStart<FlushStep>,
) {
    match s.controller.finish_promise {
        Some(f) => (s, FinishStart::Existing(f)),
        None => (
            finishing(s, finish),
            FinishStart::Started { finish: finish, algorithm: flush_step(s.controller, controller) },
        ),
    }
}

/// How an abort (of the writable side) or a cancel (of the readable side)
/// with `reason` starts.
pub open spec fn cancel_start(s: TransformStream, finish: PromiseId, reason: ValueId) -> (
    TransformStream,
    FinishStart<CancelStep>,
) {
    match s.controller.finish_promise {
        Some(f) => (s, FinishStart::Existing(f)),
        None => (
            finishing(s, finish),
            FinishStart::Started { finish: finish, algorithm: cancel_step(s.controller, reason) },
        ),
    }
}

/// How a close ends once the flush promise has settled: an error that the
/// readable side already holds wins; otherwise a fulfilled flush closes the
/// readable side (letting go of the backpressure promise) and a rejected one
/// errors it.
pub open spec fn close_settled(
    s: TransformStream,
    finish: PromiseId,
    flush_result: Result<(), ValueId>,
    readable: ReadableState,
) -> (TransformStream, Seq<Effect>) {
    match readable_error(readable) {
        Some(e) => (s, seq![Effect::RejectPromise(finish, e)]),
        None => match flush_result {
            Ok(()) => (
                TransformStream { backpressure_change_promise: None, ..s },
                resolve_if_some(s.backpressure_change_promise) + seq![
                    Effect::CloseReadable,
                    Effect::ResolvePromise(finish),
                ],
            ),
            Err(reason) => (
                s,
                seq![Effect::ErrorReadable(reason), Effect::RejectPromise(finish, reason)],
            ),
        },
    }
}

/// How an abort ends once the cancel promise has settled: an error that the
/// readable side already holds wins; otherwise the readable side is errored
/// with the abort reason (fulfilled) or the rejection reason (rejected).
pub open spec fn abort_settled(
    finish: PromiseId,
    reason: ValueId,
    cancel_result: Result<(), ValueId>,
    readable: ReadableState,
) -> Seq<Effect> {
    match readable_error(readable) {
        Some(e) => seq![Effect::RejectPromise(finish, e)],
        None => match cancel_result {
            Ok(()) => seq![Effect::ErrorReadable(reason), Effect::ResolvePromise(finish)],
            Err(error) => seq![Effect::ErrorReadable(error), Effect::RejectPromise(finish, error)],
        },
    }
}

/// How a cancel of the readable side ends once the cancel promise has
/// settled: an error that the writable side already finished erroring with
/// wins; otherwise the writable side is errored (and a blocked write let go)
/// with the cancel reason (fulfilled) or the rejection reason (rejected).
pub open spec fn cancel_settled(
    s: TransformStream,
    finish: PromiseId,
    reason: ValueId,
    cancel_result: Result<(), ValueId>,
    writable: WritableState,
) -> (TransformStream, Seq<Effect>) {
    match writable_error_if_errored(writable) {
        Some(e) => (s, seq![Effect::RejectPromise(finish, e)]),
        None => match cancel_result {
            Ok(()) => (unblocked(s), unblock_effects(s, reason) + seq![Effect::ResolvePromise(finish)]),
            Err(error) => (
                unblocked(s),
                unblock_effects(s, error) + seq![Effect::RejectPromise(finish, error)],
            ),
        },
    }
}

impl TransformStream {
    /// Sets up a stream for `transformer`, with `backpressure_promise` as the
    /// promise that the first writes wait on. A transformer that asks for a
    /// readable type, or else for a writable type, is refused with a
    /// `RangeError`.
    pub fn new(transformer: &Transformer, backpressure_promise: PromiseId) -> (r: Result<
        TransformStream,
        TransformStreamError,
    >)
        ensures
            transformer.readable_type ==> r == Err::<TransformStream, TransformStreamError>(
                TransformStreamError::ReadableTypeUnsupported,
            ),
            !transformer.readable_type && transformer.writable_type ==> r == Err::<
                TransformStream,
                TransformStreamError,
            >(TransformStreamError::WritableTypeUnsupported),
            !transformer.readable_type && !transformer.writable_type ==> r == Ok::<
                TransformStream,
                TransformStreamError,
            >(initial_stream(*transformer, backpressure_promise)),
    {
        if transformer.readable_type {
            return Err(TransformStreamError::ReadableTypeUnsupported);
        }
        if transformer.writable_type {
            return Err(TransformStreamError::WritableTypeUnsupported);
        }
        let transform_algorithm = match transformer.transform {
            Some(m) => TransformAlgorithm::Function { method: m, receiver: transformer.object },
            None => TransformAlgorithm::Identity,
        };
        let flush_algorithm = match transformer.flush {
            Some(m) => FlushAlgorithm::Function { method: m, receiver: transformer.object },
            None => FlushAlgorithm::Noop,
        };
        let cancel_algorithm = match transformer.cancel {
            Some(m) => CancelAlgorithm::Function { method: m, receiver: transformer.object },
            None => CancelAlgorithm::Noop,
        };
        Ok(
            TransformStream {
                backpressure: true,
                backpressure_change_promise: Some(backpressure_promise),
                controller: TransformStreamDefaultController {
                    transform_algorithm: Some(transform_algorithm),
                    flush_algorithm: Some(flush_algorithm),
                    cancel_algorithm: Some(cancel_algorithm),
                    finish_promise: None,
                },
            },
        )
    }
}

impl Transformer {
    /// What starting a stream with this transformer runs, `controller`
    /// being the controller object handed to `start`.
    pub fn start_algorithm(&self, controller: ValueId) -> (step: StartStep)
        ensures
            step == start_step(*self, controller),
    {
        match self.start {
            Some(m) => StartStep::Call { method: m, receiver: self.object, controller },
            None => StartStep::Fulfilled,
        }
    }
}

/// Settles the start promise once `start` returned (`Ok` of its result) or
/// threw (`Err` of the thrown value).
pub fn start_algorithm_settled(start_promise: PromiseId, result: Result<ValueId, ValueId>) -> (e:
    Effect)
    ensures
        e == start_settled(start_promise, result),
{
    match result {
        Ok(v) => Effect::ResolvePromiseWith(start_promise, v),
        Err(e) => Effect::RejectPromise(start_promise, e),
    }
}

/// Fails with a `TypeError` when the readable side has no default controller.
pub fn require_readable_default_controller(available: bool) -> (r: Result<
    (),
    TransformStreamError,
>)
    ensures
        r == if available {
            Ok::<(), TransformStreamError>(())
        } else {
            Err(TransformStreamError::ReadableControllerUnavailable)
        },
{
    if available {
        Ok(())
    } else {
        Err(TransformStreamError::ReadableControllerUnavailable)
    }
}

/// The first step of a write: wait while there is backpressure and a promise
/// to wait on, else transform at once.
pub fn sink_write_algorithm(stream: &TransformStream) -> (step: WriteStep)
    ensures
        step == write_step(*stream),
{
    if stream.backpressure {
        match stream.backpressure_change_promise {
            Some(p) => WriteStep::AwaitBackpressure(p),
            None => WriteStep::PerformTransform,
        }
    } else {
        WriteStep::PerformTransform
    }
}

/// The second step of a write that waited: the writable side's stored error
/// is thrown if it has one; otherwise the transform runs.
pub fn sink_write_backpressure_settled(writable: &WritableState) -> (r: Result<
    (),
    TransformStreamError,
>)
    ensures
        r == match writable_error(*writable) {
            Some(e) => Err(TransformStreamError::Thrown(e)),
            None => Ok::<(), TransformStreamError>(()),
        },
{
    match writable_stored_error(writable) {
        Some(e) => Err(TransformStreamError::Thrown(e)),
        None => Ok(()),
    }
}

/// The finish promise of the finishing algorithm that already started, if any.
pub fn existing_finish_promise(controller: &TransformStreamDefaultController) -> (r: Option<
    PromiseId,
>)
    ensures
        r == controller.finish_promise,
{
    controller.finish_promise
}

/// Records `finish` as the finish promise, before any transformer method
/// runs, so that a close, abort or cancel from inside that method finds it.
pub fn start_finish(controller: &mut TransformStreamDefaultController, finish: PromiseId)
    ensures
        *final(controller) == (TransformStreamDefaultController {
            finish_promise: Some(finish),
            ..*old(controller)
        }),
{
    controller.finish_promise = Some(finish);
}

/// The first step of closing the writable side: the finish promise already
/// started, or else `finish`, the flush to run (with `controller`, the
/// controller object), and the algorithms dropped.
pub fn sink_close_algorithm(
    stream: &mut TransformStream,
    finish: PromiseId,
    controller: ValueId,
) -> (r: FinishStart<FlushStep>)
    ensures
        (*final(stream), r) == close_start(*old(stream), finish, controller),
{
    if let Some(existing) = existing_finish_promise(&stream.controller) {
        return FinishStart::Existing(existing);
    }
    start_finish(&mut stream.controller, finish);
    let algorithm = perform_flush(&stream.controller, controller);
    stream.controller.clear_algorithms();
    FinishStart::Started { finish, algorithm }
}

/// The second step of closing the writable side, once the flush promise has
/// settled with `flush_result` and the readable side is in state `readable`.
pub fn sink_close_algorithm_settled(
    stream: &mut TransformStream,
    finish: PromiseId,
    flush_result: Result<(), ValueId>,
    readable: &ReadableState,
) -> (effects: Vec<Effect>)
    ensures
        (*final(stream), effects@) == close_settled(*old(stream), finish, flush_result, *readable),
{
    let mut effects: Vec<Effect> = Vec::new();
    match readable_stored_error(readable) {
        Some(e) => {
            effects.push(Effect::RejectPromise(finish, e));
        },
        None => match flush_result {
            Ok(()) => {
                push_resolve_if_some(&mut effects, stream.backpressure_change_promise);
                stream.backpressure_change_promise = None;
                effects.push(Effect::CloseReadable);
                effects.push(Effect::ResolvePromise(finish));
            },
            Err(reason) => {
                effects.push(Effect::ErrorReadable(reason));
                effects.push(Effect::RejectPromise(finish, reason));
            },
        },
    }
    proof {
        let (_s, expected) = close_settled(*old(stream), finish, flush_result, *readable);
        assert(effects@ =~= expected);
    }
    effects
}

/// The first step of aborting the writable side with `reason`: as a close,
/// but the transformer's `cancel` runs, with `reason`.
pub fn sink_abort_algorithm(
    stream: &mut TransformStream,
    finish: PromiseId,
    reason: ValueId,
) -> (r: FinishStart<CancelStep>)
    ensures
        (*final(stream), r) == cancel_start(*old(stream), finish, reason),
{
    if let Some(existing) = existing_finish_promise(&stream.controller) {
        return FinishStart::Existing(existing);
    }
    start_finish(&mut stream.controller, finish);
    let algorithm = perform_cancel(&stream.controller, reason);
    stream.controller.clear_algorithms();
    FinishStart::Started { finish, algorithm }
}

/// The second step of aborting the writable side with `reason`, once the
/// cancel promise has settled with `cancel_result` and the readable side is
/// in state `readable`.
pub fn sink_abort_algorithm_settled(
    finish: PromiseId,
    reason: ValueId,
    cancel_result: Result<(), ValueId>,
    readable: &ReadableState,
) -> (effects: Vec<Effect>)
    ensures
        effects@ == abort_settled(finish, reason, cancel_result, *readable),
{
    let mut effects: Vec<Effect> = Vec::new();
    match readable_stored_error(readable) {
        Some(e) => {
            effects.push(Effect::RejectPromise(finish, e));
        },
        None => match cancel_result {
            Ok(()) => {
                effects.push(Effect::ErrorReadable(reason));
                effects.push(Effect::ResolvePromise(finish));
            },
            Err(error) => {
                effects.push(Effect::ErrorReadable(error));
                effects.push(Effect::RejectPromise(finish, error));
            },
        },
    }
    assert(effects@ =~= abort_settled(finish, reason, cancel_result, *readable));
    effects
}

/// A pull from the readable side: backpressure goes off, and the writes that
/// waited on it go on.
pub fn source_pull_algorithm(stream: &mut TransformStream, new_promise: PromiseId) -> (effects:
    Vec<Effect>)
    ensures
        *final(stream) == with_backpressure(*old(stream), false, new_promise),
        effects@ == resolve_if_some(old(stream).backpressure_change_promise),
{
    transform_stream_set_backpressure(stream, false, new_promise)
}

/// The first step of cancelling the readable side with `reason`: as an
/// abort.
pub fn source_cancel_algorithm(
    stream: &mut TransformStream,
    finish: PromiseId,
    reason: ValueId,
) -> (r: FinishStart<CancelStep>)
    ensures
        (*final(stream), r) == cancel_start(*old(stream), finish, reason),
{
    sink_abort_algorithm(stream, finish, reason)
}

/// The second step of cancelling the readable side with `reason`, once the
/// cancel promise has settled with `cancel_result` and the writable side is
/// in state `writable`.
pub fn source_cancel_algorithm_settled(
    stream: &mut TransformStream,
    finish: PromiseId,
    reason: ValueId,
    cancel_result: Result<(), ValueId>,
    writable: &WritableState,
) -> (effects: Vec<Effect>)
    ensures
        (*final(stream), effects@) == cancel_settled(
            *old(stream),
            finish,
            reason,
            cancel_result,
            *writable,
        ),
{
    match writable_stored_error_if_errored(writable) {
        Some(e) => {
            let mut effects: Vec<Effect> = Vec::new();
            effects.push(Effect::RejectPromise(finish, e));
            assert(effects@ =~= seq![Effect::RejectPromise(finish, e)]);
            effects
        },
        None => match cancel_result {
            Ok(()) => {
                let mut effects = transform_stream_error_writable_and_unblock_write(stream, reason);
                effects.push(Effect::ResolvePromise(finish));
                effects
            },
            Err(error) => {
                let mut effects = transform_stream_error_writable_and_unblock_write(stream, error);
                effects.push(Effect::RejectPromise(finish, error));
                effects
            },
        },
    }
}

} // verus!
