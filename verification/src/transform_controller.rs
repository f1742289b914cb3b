//! The abstract operations of `TransformStreamDefaultController`: enqueue,
//! error, terminate, backpressure, and the choice of the algorithm that a
//! write, a close or a cancel runs.
use vstd::prelude::*;
use crate::transform_types::{
    push_resolve_if_some, resolve_if_some, CancelAlgorithm, CancelStep, Effect, FlushAlgorithm,
    FlushStep, PromiseId, TransformAlgorithm, TransformStep, TransformStream,
    TransformStreamDefaultController, TransformStreamError, ValueId,
};

verus! {

/// The controller with its algorithms dropped; its finish promise stays.
pub open spec fn with_cleared_algorithms(
    c: TransformStreamDefaultController,
) -> TransformStreamDefaultController {
    TransformStreamDefaultController {
        transform_algorithm: None,
        flush_algorithm: None,
        cancel_algorithm: None,
        finish_promise: c.finish_promise,
    }
}

/// Whether the controller has dropped all its algorithms.
pub open spec fn algorithms_cleared(c: TransformStreamDefaultController) -> bool {
    &&& c.transform_algorithm is None
    &&& c.flush_algorithm is None
    &&& c.cancel_algorithm is None
}

/// The stream once its writable side is errored and a blocked write is let
/// go: no algorithms, no backpressure, no promise to wait on.
pub open spec fn unblocked(s: TransformStream) -> TransformStream {
    TransformStream {
        backpressure: false,
        backpressure_change_promise: None,
        controller: with_cleared_algorithms(s.controller),
    }
}

/// What erroring the writable side and unblocking a write asks for: error the
/// writable side, then resolve the promise that a blocked write waits on.
pub open spec fn unblock_effects(s: TransformStream, e: ValueId) -> Seq<Effect> {
    seq![Effect::ErrorWritableIfNeeded(e)] + resolve_if_some(s.backpressure_change_promise)
}

/// The stream with its backpressure set to `backpressure` and a fresh promise
/// for writes to wait on.
pub open spec fn with_backpressure(
    s: TransformStream,
    backpressure: bool,
    new_promise: PromiseId,
) -> TransformStream {
    TransformStream {
        backpressure: backpressure,
        backpressure_change_promise: Some(new_promise),
        controller: s.controller,
    }
}

/// The outcome of handing a chunk to the readable side, as the embedder saw it.
#[derive(Clone, Copy, Debug, PartialEq, Eq, Structural)]
pub enum EnqueueOutcome {
    /// The readable side does not accept chunks (closed, closing or errored);
    /// the chunk was not handed over.
    NotPermitted,
    /// The readable side took the chunk; `has_backpressure` tells whether its
    /// desired size is now unknown or at most zero.
    Accepted { has_backpressure: bool },
    /// Handing over the chunk threw `reason` (a size algorithm that threw, or
    /// an invalid size); `stored_error` is the error that the readable side
    /// then holds.
    Threw { reason: ValueId, stored_error: Option<ValueId> },
}

/// What `transform_stream_default_controller_enqueue` does: the stream after
/// it, the effects it asks for, and its result.
pub open spec fn enqueue_step(
    s: TransformStream,
    outcome: EnqueueOutcome,
    new_promise: PromiseId,
) -> (TransformStream, Seq<Effect>, Result<(), TransformStreamError>) {
    match outcome {
        EnqueueOutcome::NotPermitted => (
            s,
            Seq::empty(),
            Err(TransformStreamError::EnqueueNotPermitted),
        ),
        EnqueueOutcome::Accepted { has_backpressure } => if has_backpressure != s.backpressure {
            (
                with_backpressure(s, true, new_promise),
                resolve_if_some(s.backpressure_change_promise),
                Ok(()),
            )
        } else {
            (s, Seq::empty(), Ok(()))
        },
        EnqueueOutcome::Threw { reason, stored_error } => (
            unblocked(s),
            unblock_effects(s, reason),
            match stored_error {
                Some(e) => Err(TransformStreamError::Thrown(e)),
                None => Err(TransformStreamError::EnqueueFailedWithoutStoredError),
            },
        ),
    }
}

impl TransformStreamDefaultController {
    /// The controller cannot be constructed from script: this always fails
    /// with a `TypeError`.
    pub fn new() -> (r: Result<Self, TransformStreamError>)
        ensures
            r == Err::<Self, TransformStreamError>(TransformStreamError::IllegalConstructor),
    {
        Err(TransformStreamError::IllegalConstructor)
    }

    /// Drops the transform, flush and cancel algorithms.
    pub fn clear_algorithms(&mut self)
        ensures
            *final(self) == with_cleared_algorithms(*old(self)),
    {
        self.transform_algorithm = None;
        self.flush_algorithm = None;
        self.cancel_algorithm = None;
    }
}

/// Errors the writable side with `e` and lets go of a write blocked on
/// backpressure: the algorithms are dropped, backpressure is off, and the
/// promise that a blocked write waits on is resolved and forgotten.
pub fn transform_stream_error_writable_and_unblock_write(
    stream: &mut TransformStream,
    e: ValueId,
) -> (effects: Vec<Effect>)
    ensures
        *final(stream) == unblocked(*old(stream)),
        effects@ == unblock_effects(*old(stream), e),
{
    stream.controller.clear_algorithms();
    let mut effects: Vec<Effect> = Vec::new();
    effects.push(Effect::ErrorWritableIfNeeded(e));
    push_resolve_if_some(&mut effects, stream.backpressure_change_promise);
    stream.backpressure_change_promise = None;
    stream.backpressure = false;
    effects
}

/// Sets the backpressure flag; the promise that writes waited on is resolved
/// and `new_promise` takes its place.
pub fn transform_stream_set_backpressure(
    stream: &mut TransformStream,
    backpressure: bool,
    new_promise: PromiseId,
) -> (effects: Vec<Effect>)
    ensures
        *final(stream) == with_backpressure(*old(stream), backpressure, new_promise),
        effects@ == resolve_if_some(old(stream).backpressure_change_promise),
{
    let mut effects: Vec<Effect> = Vec::new();
    push_resolve_if_some(&mut effects, stream.backpressure_change_promise);
    assert(effects@ =~= resolve_if_some(old(stream).backpressure_change_promise));
    stream.backpressure_change_promise = Some(new_promise);
    stream.backpressure = backpressure;
    effects
}

/// Errors both sides with `e`: first the readable side, then the writable
/// side as `transform_stream_error_writable_and_unblock_write` does.
pub fn transform_stream_error(stream: &mut TransformStream, e: ValueId) -> (effects: Vec<Effect>)
    ensures
        *final(stream) == unblocked(*old(stream)),
        effects@ == seq![Effect::ErrorReadable(e)] + unblock_effects(*old(stream), e),
{
    let mut effects: Vec<Effect> = Vec::new();
    effects.push(Effect::ErrorReadable(e));
    let mut rest = transform_stream_error_writable_and_unblock_write(stream, e);
    effects.append(&mut rest);
    effects
}

/// Terminates the stream: the readable side is closed, and the writable side
/// is errored with `terminated_error` (the `TypeError` "TransformStream
/// terminated" that the embedder created).
pub fn transform_stream_default_controller_terminate(
    stream: &mut TransformStream,
    terminated_error: ValueId,
) -> (effects: Vec<Effect>)
    ensures
        *final(stream) == unblocked(*old(stream)),
        effects@ == seq![Effect::CloseReadable] + unblock_effects(*old(stream), terminated_error),
{
    let mut effects: Vec<Effect> = Vec::new();
    effects.push(Effect::CloseReadable);
    let mut rest = transform_stream_error_writable_and_unblock_write(stream, terminated_error);
    effects.append(&mut rest);
    effects
}

/// What the controller does around handing a chunk to the readable side.
///
/// A refused chunk is a `TypeError` and changes nothing. An accepted chunk
/// updates backpressure: when the readable side's view of backpressure
/// differs from the stream's, backpressure is set (to `true`, with
/// `new_promise` as the promise that writes wait on). A chunk whose
/// enqueueing threw errors the writable side with the thrown reason, and the
/// readable side's stored error is thrown (a `TypeError` if it kept none).
pub fn transform_stream_default_controller_enqueue(
    stream: &mut TransformStream,
    outcome: EnqueueOutcome,
    new_promise: PromiseId,
) -> (res: (Vec<Effect>, Result<(), TransformStreamError>))
    ensures
        ({
            let (s, effects, result) = enqueue_step(*old(stream), outcome, new_promise);
            &&& *final(stream) == s
            &&& res.0@ == effects
            &&& res.1 == result
        }),
{
    match outcome {
        EnqueueOutcome::NotPermitted => {
            (Vec::new(), Err(TransformStreamError::EnqueueNotPermitted))
        },
        EnqueueOutcome::Accepted { has_backpressure } => {
            if has_backpressure != stream.backpressure {
                let effects = transform_stream_set_backpressure(stream, true, new_promise);
                (effects, Ok(()))
            } else {
                (Vec::new(), Ok(()))
            }
        },
        EnqueueOutcome::Threw { reason, stored_error } => {
            let effects = transform_stream_error_writable_and_unblock_write(stream, reason);
            match stored_error {
                Some(e) => (effects, Err(TransformStreamError::Thrown(e))),
                None => (effects, Err(TransformStreamError::EnqueueFailedWithoutStoredError)),
            }
        },
    }
}

/// What a write does with `chunk` under `algorithm`, `controller` being the
/// controller object handed to the transformer.
pub open spec fn transform_step(
    algorithm: TransformAlgorithm,
    chunk: ValueId,
    controller: ValueId,
) -> TransformStep {
    match algorithm {
        TransformAlgorithm::Identity => TransformStep::Enqueue { chunk: chunk },
        TransformAlgorithm::Function { method, receiver } => TransformStep::Call {
            method: method,
            receiver: receiver,
            chunk: chunk,
            controller: controller,
        },
    }
}

/// What a close runs: the transformer's `flush` with the controller, or
/// nothing once the algorithms are dropped or when there is no `flush`.
pub open spec fn flush_step(c: TransformStreamDefaultController, controller: ValueId) -> FlushStep {
    match c.flush_algorithm {
        Some(FlushAlgorithm::Function { method, receiver }) => FlushStep::Call {
            method: method,
            receiver: receiver,
            controller: controller,
        },
        _ => FlushStep::Fulfilled,
    }
}

/// What an abort or a cancel runs: the transformer's `cancel` with the
/// reason, or nothing once the algorithms are dropped or when there is no
/// `cancel`.
pub open spec fn cancel_step(c: TransformStreamDefaultController, reason: ValueId) -> CancelStep {
    match c.cancel_algorithm {
        Some(CancelAlgorithm::Function { method, receiver }) => CancelStep::Call {
            method: method,
            receiver: receiver,
            reason: reason,
        },
        _ => CancelStep::Fulfilled,
    }
}

/// How a write ends once its transform has settled: a fulfilled transform
/// changes nothing; a transform that threw or rejected with `r` errors both
/// sides with `r`, and the write rejects with `r`.
pub open spec fn transform_settled(s: TransformStream, result: Result<(), ValueId>) -> (
    TransformStream,
    Seq<Effect>,
    Result<(), TransformStreamError>,
) {
    match result {
        Ok(()) => (s, Seq::empty(), Ok(())),
        Err(r) => (
            unblocked(s),
            seq![Effect::ErrorReadable(r)] + unblock_effects(s, r),
            Err(TransformStreamError::Thrown(r)),
        ),
    }
}

/// What a write does with `chunk`: the identity transform hands it unchanged
/// to the readable side; the transformer's `transform` is called once, with
/// the transformer as `this` and `chunk` and `controller` (the controller
/// object) as arguments. Runs only while the controller still has its
/// algorithms (a write never reaches a finished stream).
pub fn transform_stream_default_controller_perform_transform(
    controller: &TransformStreamDefaultController,
    chunk: ValueId,
    controller_object: ValueId,
) -> (step: TransformStep)
    requires
        controller.transform_algorithm is Some,
    ensures
        step == transform_step(controller.transform_algorithm->0, chunk, controller_object),
{
    let algorithm = match controller.transform_algorithm {
        Some(a) => a,
        None => TransformAlgorithm::Identity,
    };
    match algorithm {
        TransformAlgorithm::Identity => TransformStep::Enqueue { chunk },
        TransformAlgorithm::Function { method, receiver } => TransformStep::Call {
            method,
            receiver,
            chunk,
            controller: controller_object,
        },
    }
}

/// The second step of a write, once the transform has settled with
/// `result`: `Ok` when the transform (or, for the identity transform, the
/// enqueue) fulfilled; `Err(r)` when it threw or its promise rejected with
/// `r`. A failure errors both sides with `r` (as `transform_stream_error`)
/// and the write rejects with `r`.
pub fn transform_stream_default_controller_perform_transform_settled(
    stream: &mut TransformStream,
    result: Result<(), ValueId>,
) -> (res: (Vec<Effect>, Result<(), TransformStreamError>))
    ensures
        ({
            let (s, effects, r) = transform_settled(*old(stream), result);
            &&& *final(stream) == s
            &&& res.0@ == effects
            &&& res.1 == r
        }),
{
    match result {
        Ok(()) => (Vec::new(), Ok(())),
        Err(r) => {
            let effects = transform_stream_error(stream, r);
            (effects, Err(TransformStreamError::Thrown(r)))
        },
    }
}

/// The flush that a close runs, `controller_object` being the controller
/// object handed to the transformer.
pub fn perform_flush(
    controller: &TransformStreamDefaultController,
    controller_object: ValueId,
) -> (step: FlushStep)
    ensures
        step == flush_step(*controller, controller_object),
{
    match controller.flush_algorithm {
        Some(FlushAlgorithm::Function { method, receiver }) => FlushStep::Call {
            method,
            receiver,
            controller: controller_object,
        },
        _ => FlushStep::Fulfilled,
    }
}

/// The cancel that an abort or a cancel with `reason` runs.
pub fn perform_cancel(controller: &TransformStreamDefaultController, reason: ValueId) -> (step:
    CancelStep)
    ensures
        step == cancel_step(*controller, reason),
{
    match controller.cancel_algorithm {
        Some(CancelAlgorithm::Function { method, receiver }) => CancelStep::Call {
            method,
            receiver,
            reason,
        },
        _ => CancelStep::Fulfilled,
    }
}

} // verus!
