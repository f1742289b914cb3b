//! The state of a `TransformStream` as plain values, and the effects that its
//! algorithms ask the JavaScript side to perform.
//!
//! JavaScript values (chunks, reasons, errors) and promises stay with the
//! embedder; the state here holds the handles by which the embedder finds
//! them again.
use vstd::prelude::*;

verus! {

/// Handle of a JavaScript value (a chunk, a reason or an error) kept by the embedder.
pub type ValueId = u64;

/// Handle of a promise created and kept by the embedder.
pub type PromiseId = u64;

/// The transform algorithm of a controller: the transformer's `transform`
/// method (`method`, called with the transformer object `receiver` as
/// `this`), or the identity transform when the transformer has none.
#[derive(Clone, Copy, Debug, PartialEq, Eq, Structural)]
pub enum TransformAlgorithm {
    Identity,
    Function { method: ValueId, receiver: Option<ValueId> },
}

/// The flush algorithm of a controller: the transformer's `flush` method, or
/// nothing to do.
#[derive(Clone, Copy, Debug, PartialEq, Eq, Structural)]
pub enum FlushAlgorithm {
    Noop,
    Function { method: ValueId, receiver: Option<ValueId> },
}

/// The cancel algorithm of a controller: the transformer's `cancel` method,
/// or nothing to do.
#[derive(Clone, Copy, Debug, PartialEq, Eq, Structural)]
pub enum CancelAlgorithm {
    Noop,
    Function { method: ValueId, receiver: Option<ValueId> },
}

/// What a write does with its chunk.
#[derive(Clone, Copy, Debug, PartialEq, Eq, Structural)]
pub enum TransformStep {
    /// The identity transform: hand `chunk` unchanged to the readable side,
    /// through `transform_stream_default_controller_enqueue`.
    Enqueue { chunk: ValueId },
    /// Call `method` with `this` = `receiver` and the arguments `chunk` and
    /// `controller`.
    Call { method: ValueId, receiver: Option<ValueId>, chunk: ValueId, controller: ValueId },
}

/// What a close runs before it settles.
#[derive(Clone, Copy, Debug, PartialEq, Eq, Structural)]
pub enum FlushStep {
    /// Nothing to call: the flush is fulfilled at once.
    Fulfilled,
    /// Call `method` with `this` = `receiver` and the argument `controller`.
    Call { method: ValueId, receiver: Option<ValueId>, controller: ValueId },
}

/// What an abort or a cancel runs before it settles.
#[derive(Clone, Copy, Debug, PartialEq, Eq, Structural)]
pub enum CancelStep {
    /// Nothing to call: the cancel is fulfilled at once.
    Fulfilled,
    /// Call `method` with `this` = `receiver` and the argument `reason`.
    Call { method: ValueId, receiver: Option<ValueId>, reason: ValueId },
}

/// What starting the stream runs.
#[derive(Clone, Copy, Debug, PartialEq, Eq, Structural)]
pub enum StartStep {
    /// Nothing to call: the start promise is resolved with `undefined`.
    Fulfilled,
    /// Call `method` with `this` = `receiver` and the argument `controller`.
    Call { method: ValueId, receiver: Option<ValueId>, controller: ValueId },
}

/// The state of a `TransformStreamDefaultController`: its algorithms, which
/// are dropped once the stream finishes or errors, and the promise that the
/// first finishing algorithm (close, abort or cancel) created.
#[derive(Clone, Copy, Debug, PartialEq, Eq, Structural)]
pub struct TransformStreamDefaultController {
    pub transform_algorithm: Option<TransformAlgorithm>,
    pub flush_algorithm: Option<FlushAlgorithm>,
    pub cancel_algorithm: Option<CancelAlgorithm>,
    pub finish_promise: Option<PromiseId>,
}

/// The state of a `TransformStream`: whether its writable side waits for the
/// readable side to be pulled, the promise that such a write waits on, and
/// its controller.
#[derive(Clone, Copy, Debug, PartialEq, Eq, Structural)]
pub struct TransformStream {
    pub backpressure: bool,
    pub backpressure_change_promise: Option<PromiseId>,
    pub controller: TransformStreamDefaultController,
}

/// The state of the readable side, as far as the transform reads it.
#[derive(Clone, Copy, Debug, PartialEq, Eq, Structural)]
pub enum ReadableState {
    Readable,
    Closed,
    Errored(ValueId),
}

/// The state of the writable side, as far as the transform reads it.
#[derive(Clone, Copy, Debug, PartialEq, Eq, Structural)]
pub enum WritableState {
    Writable,
    Erroring(ValueId),
    Closed,
    Errored(ValueId),
}

/// One step that an algorithm asks the embedder to perform, in order.
#[derive(Clone, Copy, Debug, PartialEq, Eq, Structural)]
pub enum Effect {
    /// Resolve the promise with `undefined`.
    ResolvePromise(PromiseId),
    /// Resolve the promise with the value.
    ResolvePromiseWith(PromiseId, ValueId),
    /// Reject the promise with the value.
    RejectPromise(PromiseId, ValueId),
    /// Error the writable side with the value if it is still writable.
    ErrorWritableIfNeeded(ValueId),
    /// Error the readable side with the value.
    ErrorReadable(ValueId),
    /// Close the readable side.
    CloseReadable,
}

/// The errors that the transform algorithms raise themselves.
#[derive(Clone, Copy, Debug, PartialEq, Eq, Structural)]
pub enum TransformStreamError {
    /// `TypeError`: the controller cannot be constructed from script.
    IllegalConstructor,
    /// `TypeError`: the readable side has no default controller.
    ReadableControllerUnavailable,
    /// `TypeError`: the readable side does not accept chunks any more.
    EnqueueNotPermitted,
    /// `TypeError`: enqueueing threw but the readable side kept no error.
    EnqueueFailedWithoutStoredError,
    /// `RangeError`: the transformer asks for a readable type.
    ReadableTypeUnsupported,
    /// `RangeError`: the transformer asks for a writable type.
    WritableTypeUnsupported,
    /// The JavaScript value to throw as it is.
    Thrown(ValueId),
}

/// The resolution of the promise, if there is one.
pub open spec fn resolve_if_some(p: Option<PromiseId>) -> Seq<Effect> {
    match p {
        Some(q) => seq![Effect::ResolvePromise(q)],
        None => Seq::empty(),
    }
}

/// The error that the readable side holds once it has errored.
pub open spec fn readable_error(state: ReadableState) -> Option<ValueId> {
    match state {
        ReadableState::Errored(e) => Some(e),
        _ => None,
    }
}

/// The error that the writable side holds from the moment it starts erroring.
pub open spec fn writable_error(state: WritableState) -> Option<ValueId> {
    match state {
        WritableState::Erroring(e) => Some(e),
        WritableState::Errored(e) => Some(e),
        _ => None,
    }
}

/// The error that the writable side holds once it has finished erroring.
pub open spec fn writable_error_if_errored(state: WritableState) -> Option<ValueId> {
    match state {
        WritableState::Errored(e) => Some(e),
        _ => None,
    }
}

impl TransformStreamError {
    /// Whether the error is thrown as a `RangeError` (the others that carry a
    /// message are `TypeError`s).
    pub open spec fn spec_is_range_error(self) -> bool {
        self is ReadableTypeUnsupported || self is WritableTypeUnsupported
    }

    /// Whether the error is thrown as a `RangeError`.
    pub fn is_range_error(&self) -> (b: bool)
        ensures
            b == self.spec_is_range_error(),
    {
        match self {
            TransformStreamError::ReadableTypeUnsupported => true,
            TransformStreamError::WritableTypeUnsupported => true,
            _ => false,
        }
    }

    /// The message of the error; empty for a value thrown as it is.
    pub fn message(&self) -> (m: &'static str)
        ensures
            self is IllegalConstructor ==> m@ == "Illegal constructor"@,
            self is ReadableControllerUnavailable ==> m@ == "readable controller not available"@,
            self is EnqueueNotPermitted ==> m@
                == "The stream is not in a state that permits enqueue"@,
            self is EnqueueFailedWithoutStoredError ==> m@
                == "readable enqueue failed without a stored error"@,
            self is ReadableTypeUnsupported ==> m@ == "readableType is not supported"@,
            self is WritableTypeUnsupported ==> m@ == "writableType is not supported"@,
            self is Thrown ==> m@ == ""@,
    {
        match self {
            TransformStreamError::IllegalConstructor => "Illegal constructor",
            TransformStreamError::ReadableControllerUnavailable => "readable controller not available",
            TransformStreamError::EnqueueNotPermitted => "The stream is not in a state that permits enqueue",
            TransformStreamError::EnqueueFailedWithoutStoredError => "readable enqueue failed without a stored error",
            TransformStreamError::ReadableTypeUnsupported => "readableType is not supported",
            TransformStreamError::WritableTypeUnsupported => "writableType is not supported",
            TransformStreamError::Thrown(_) => "",
        }
    }
}

/// The readable side's stored error, once it has errored.
pub fn readable_stored_error(state: &ReadableState) -> (r: Option<ValueId>)
    ensures
        r == readable_error(*state),
{
    match state {
        ReadableState::Errored(e) => Some(*e),
        _ => None,
    }
}

/// The writable side's stored error, from the moment it starts erroring.
pub fn writable_stored_error(state: &WritableState) -> (r: Option<ValueId>)
    ensures
        r == writable_error(*state),
{
    match state {
        WritableState::Erroring(e) => Some(*e),
        WritableState::Errored(e) => Some(*e),
        _ => None,
    }
}

/// The writable side's stored error, only once it has finished erroring:
/// the finishing algorithms prefer it only then.
pub fn writable_stored_error_if_errored(state: &WritableState) -> (r: Option<ValueId>)
    ensures
        r == writable_error_if_errored(*state),
{
    match state {
        WritableState::Errored(e) => Some(*e),
        _ => None,
    }
}

/// Pushes the resolution of `p`, if there is a promise.
pub fn push_resolve_if_some(effects: &mut Vec<Effect>, p: Option<PromiseId>)
    ensures
        final(effects)@ == old(effects)@ + resolve_if_some(p),
{
    match p {
        Some(q) => {
            effects.push(Effect::ResolvePromise(q));
        },
        None => {},
    }
    assert(effects@ =~= old(effects)@ + resolve_if_some(p));
}

} // verus!
