//! What every operation of a `TransformStream` keeps, and how its finishing
//! algorithms relate to one another.
use vstd::prelude::*;
use crate::transform_types::{
    CancelAlgorithm, CancelStep, Effect, FlushAlgorithm, FlushStep, PromiseId, ReadableState,
    StartStep, TransformAlgorithm, TransformStep, TransformStream,
    TransformStreamDefaultController, TransformStreamError, ValueId, WritableState,
    resolve_if_some,
};
use crate::transform_controller::{
    algorithms_cleared, enqueue_step, transform_settled, transform_step, unblocked,
    unblock_effects, with_backpressure, EnqueueOutcome,
};
use crate::transform_stream::{
    abort_settled, cancel_settled, cancel_start, close_settled, close_start, write_step,
    initial_stream, start_settled, start_step, FinishStart, Transformer, WriteStep,
};

verus! {

/// The operations that change a stream's state, with the values the
/// embedder hands them.
#[derive(Clone, Copy, Debug)]
pub enum StreamOperation {
    SetBackpressure { backpressure: bool, new_promise: PromiseId },
    ErrorWritableAndUnblockWrite { error: ValueId },
    Error { error: ValueId },
    Terminate { terminated_error: ValueId },
    Enqueue { outcome: EnqueueOutcome, new_promise: PromiseId },
    TransformSettled { result: Result<(), ValueId> },
    SinkClose { finish: PromiseId, controller: ValueId },
    SinkCloseSettled { finish: PromiseId, flush_result: Result<(), ValueId>, readable: ReadableState },
    SinkAbort { finish: PromiseId, reason: ValueId },
    SourcePull { new_promise: PromiseId },
    SourceCancel { finish: PromiseId, reason: ValueId },
    SourceCancelSettled {
        finish: PromiseId,
        reason: ValueId,
        cancel_result: Result<(), ValueId>,
        writable: WritableState,
    },
}

/// The stream after the operation, as the operation's own contract gives it.
pub open spec fn after(s: TransformStream, op: StreamOperation) -> TransformStream {
    match op {
        StreamOperation::SetBackpressure { backpressure, new_promise } => with_backpressure(
            s,
            backpressure,
            new_promise,
        ),
        StreamOperation::ErrorWritableAndUnblockWrite { .. } => unblocked(s),
        StreamOperation::Error { .. } => unblocked(s),
        StreamOperation::Terminate { .. } => unblocked(s),
        StreamOperation::Enqueue { outcome, new_promise } => enqueue_step(s, outcome, new_promise).0,
        StreamOperation::TransformSettled { result } => transform_settled(s, result).0,
        StreamOperation::SinkClose { finish, controller } => close_start(s, finish, controller).0,
        StreamOperation::SinkCloseSettled { finish, flush_result, readable } => close_settled(
            s,
            finish,
            flush_result,
            readable,
        ).0,
        StreamOperation::SinkAbort { finish, reason } => cancel_start(s, finish, reason).0,
        StreamOperation::SourcePull { new_promise } => with_backpressure(s, false, new_promise),
        StreamOperation::SourceCancel { finish, reason } => cancel_start(s, finish, reason).0,
        StreamOperation::SourceCancelSettled { finish, reason, cancel_result, writable } =>
            cancel_settled(s, finish, reason, cancel_result, writable).0,
    }
}

/// The effects that the operation asks for, as its own contract gives them.
pub open spec fn effects_of(s: TransformStream, op: StreamOperation) -> Seq<Effect> {
    match op {
        StreamOperation::SetBackpressure { .. } => resolve_if_some(s.backpressure_change_promise),
        StreamOperation::ErrorWritableAndUnblockWrite { error } => unblock_effects(s, error),
        StreamOperation::Error { error } => seq![Effect::ErrorReadable(error)] + unblock_effects(
            s,
            error,
        ),
        StreamOperation::Terminate { terminated_error } => seq![Effect::CloseReadable]
            + unblock_effects(s, terminated_error),
        StreamOperation::Enqueue { outcome, new_promise } => enqueue_step(s, outcome, new_promise).1,
        StreamOperation::TransformSettled { result } => transform_settled(s, result).1,
        StreamOperation::SinkClose { .. } => Seq::empty(),
        StreamOperation::SinkCloseSettled { finish, flush_result, readable } => close_settled(
            s,
            finish,
            flush_result,
            readable,
        ).1,
        StreamOperation::SinkAbort { .. } => Seq::empty(),
        StreamOperation::SourcePull { .. } => resolve_if_some(s.backpressure_change_promise),
        StreamOperation::SourceCancel { .. } => Seq::empty(),
        StreamOperation::SourceCancelSettled { finish, reason, cancel_result, writable } =>
            cancel_settled(s, finish, reason, cancel_result, writable).1,
    }
}

/// No write is left waiting on a forgotten promise: whenever an operation
/// replaces or drops the promise that blocked writes wait on, it resolves
/// that promise.
pub proof fn lemma_replaced_backpressure_promise_is_resolved(
    s: TransformStream,
    op: StreamOperation,
    p: PromiseId,
)
    requires
        s.backpressure_change_promise == Some(p),
        after(s, op).backpressure_change_promise != Some(p),
    ensures
        effects_of(s, op).contains(Effect::ResolvePromise(p)),
{
    let effects = effects_of(s, op);
    match op {
        StreamOperation::ErrorWritableAndUnblockWrite { error } => {
            assert(effects[1] == Effect::ResolvePromise(p));
        },
        StreamOperation::Error { error } => {
            assert(effects[2] == Effect::ResolvePromise(p));
        },
        StreamOperation::Terminate { terminated_error } => {
            assert(effects[2] == Effect::ResolvePromise(p));
        },
        StreamOperation::TransformSettled { result } => {
            assert(effects[2] == Effect::ResolvePromise(p));
        },
        StreamOperation::Enqueue { outcome, new_promise } => {
            if outcome is Threw {
                assert(effects[1] == Effect::ResolvePromise(p));
            } else {
                assert(effects[0] == Effect::ResolvePromise(p));
            }
        },
        StreamOperation::SinkCloseSettled { finish, flush_result, readable } => {
            assert(effects[0] == Effect::ResolvePromise(p));
        },
        StreamOperation::SourceCancelSettled { finish, reason, cancel_result, writable } => {
            assert(effects[1] == Effect::ResolvePromise(p));
        },
        _ => {
            assert(effects[0] == Effect::ResolvePromise(p));
        },
    }
}

/// A stream whose close, abort or cancel has started has dropped its
/// algorithms.
pub open spec fn finished_without_algorithms(s: TransformStream) -> bool {
    s.controller.finish_promise is Some ==> algorithms_cleared(s.controller)
}

/// A new stream has not started finishing, and every operation keeps a
/// started finish without algorithms: once a close, an abort or a cancel has
/// started, no transformer method (transform, flush or cancel) is chosen
/// again.
pub proof fn lemma_finished_stream_keeps_no_algorithms(
    t: Transformer,
    p: PromiseId,
    s: TransformStream,
    op: StreamOperation,
)
    requires
        finished_without_algorithms(s),
    ensures
        initial_stream(t, p).controller.finish_promise is None,
        finished_without_algorithms(after(s, op)),
{
}

/// Once the controller has dropped its algorithms, no operation gives them
/// back: after an error, a termination or the start of a close, abort or
/// cancel, the transformer's methods are never called again.
pub proof fn lemma_algorithms_stay_cleared(s: TransformStream, op: StreamOperation)
    requires
        algorithms_cleared(s.controller),
    ensures
        algorithms_cleared(after(s, op).controller),
{
}

/// Once a close, an abort or a cancel has started, its finish promise stays
/// the stream's finish promise, whatever happens next.
pub proof fn lemma_finish_promise_is_kept(s: TransformStream, op: StreamOperation)
    requires
        s.controller.finish_promise is Some,
    ensures
        after(s, op).controller.finish_promise == s.controller.finish_promise,
{
}

/// Close, abort and cancel share one finish: once one of them has started,
/// each of the others (or the same again, even from inside the transformer
/// method it runs) returns the first one's promise, runs no transformer
/// method, and changes nothing.
pub proof fn lemma_finish_is_shared(
    s: TransformStream,
    first: PromiseId,
    later: PromiseId,
    controller: ValueId,
    reason: ValueId,
    later_reason: ValueId,
)
    requires
        s.controller.finish_promise is None,
    ensures
        ({
            let after_close = close_start(s, first, controller).0;
            &&& close_start(after_close, later, controller) == (after_close, FinishStart::<
                FlushStep,
            >::Existing(first))
            &&& cancel_start(after_close, later, later_reason) == (after_close, FinishStart::<
                CancelStep,
            >::Existing(first))
        }),
        ({
            let after_cancel = cancel_start(s, first, reason).0;
            &&& close_start(after_cancel, later, controller) == (after_cancel, FinishStart::<
                FlushStep,
            >::Existing(first))
            &&& cancel_start(after_cancel, later, later_reason) == (after_cancel, FinishStart::<
                CancelStep,
            >::Existing(first))
        }),
{
}

/// An error that a side already holds when the transformer's flush or cancel
/// settles is the one the finish promise rejects with, whatever the flush or
/// cancel gave, and nothing else happens: for a close and an abort, the
/// readable side's error; for a cancel, the writable side's error once it
/// has finished erroring.
pub proof fn lemma_existing_error_wins(
    s: TransformStream,
    finish: PromiseId,
    reason: ValueId,
    result: Result<(), ValueId>,
    e: ValueId,
)
    ensures
        close_settled(s, finish, result, ReadableState::Errored(e)) == (
            s,
            seq![Effect::RejectPromise(finish, e)],
        ),
        abort_settled(finish, reason, result, ReadableState::Errored(e)) == seq![
            Effect::RejectPromise(finish, e),
        ],
        cancel_settled(s, finish, reason, result, WritableState::Errored(e)) == (
            s,
            seq![Effect::RejectPromise(finish, e)],
        ),
{
}

/// Erroring the writable side lets a write blocked on backpressure go: the
/// promise it waits on is resolved, and later writes no longer wait.
pub proof fn lemma_unblock_releases_writes(s: TransformStream, e: ValueId)
    ensures
        write_step(unblocked(s)) == WriteStep::PerformTransform,
        s.backpressure_change_promise matches Some(p) ==> unblock_effects(s, e).contains(
            Effect::ResolvePromise(p),
        ),
{
    if let Some(p) = s.backpressure_change_promise {
        assert(unblock_effects(s, e)[1] == Effect::ResolvePromise(p));
    }
}

/// A pull from the readable side releases the writes that waited: their
/// promise is resolved, and the next write transforms at once.
pub proof fn lemma_pull_releases_writes(s: TransformStream, new_promise: PromiseId)
    ensures
        write_step(with_backpressure(s, false, new_promise)) == WriteStep::PerformTransform,
        s.backpressure_change_promise matches Some(p) ==> resolve_if_some(
            s.backpressure_change_promise,
        ) == seq![Effect::ResolvePromise(p)],
{
}

/// A fulfilled close closes the readable side and resolves its finish promise
/// only when the readable side holds no error; a rejected one errors the
/// readable side with the rejection reason and rejects the finish promise
/// with it.
pub proof fn lemma_close_outcomes(
    s: TransformStream,
    finish: PromiseId,
    readable: ReadableState,
    reason: ValueId,
)
    requires
        !(readable is Errored),
    ensures
        close_settled(s, finish, Ok(()), readable).1.last() == Effect::ResolvePromise(finish),
        close_settled(s, finish, Ok(()), readable).1.contains(Effect::CloseReadable),
        close_settled(s, finish, Err(reason), readable).1 == seq![
            Effect::ErrorReadable(reason),
            Effect::RejectPromise(finish, reason),
        ],
{
    let effects = close_settled(s, finish, Ok(()), readable).1;
    let n = resolve_if_some(s.backpressure_change_promise).len();
    assert(effects[n as int] == Effect::CloseReadable);
}

/// What a write does with `chunk` when the transformer is `t`.
pub open spec fn transformer_transform_step(
    t: Transformer,
    chunk: ValueId,
    controller: ValueId,
) -> TransformStep {
    match t.transform {
        Some(m) => TransformStep::Call {
            method: m,
            receiver: t.object,
            chunk: chunk,
            controller: controller,
        },
        None => TransformStep::Enqueue { chunk: chunk },
    }
}

/// What a close runs when the transformer is `t`.
pub open spec fn transformer_flush_step(t: Transformer, controller: ValueId) -> FlushStep {
    match t.flush {
        Some(m) => FlushStep::Call { method: m, receiver: t.object, controller: controller },
        None => FlushStep::Fulfilled,
    }
}

/// What an abort or a cancel with `reason` runs when the transformer is `t`.
pub open spec fn transformer_cancel_step(t: Transformer, reason: ValueId) -> CancelStep {
    match t.cancel {
        Some(m) => CancelStep::Call { method: m, receiver: t.object, reason: reason },
        None => CancelStep::Fulfilled,
    }
}

/// A write to a new stream hands its chunk to the transformer's `transform`
/// (once, with the transformer as `this` and the chunk and the controller as
/// arguments), or, without one, unchanged to the readable side.
pub proof fn lemma_write_runs_the_transformer(
    t: Transformer,
    p: PromiseId,
    chunk: ValueId,
    controller: ValueId,
)
    ensures
        transform_step(initial_stream(t, p).controller.transform_algorithm->0, chunk, controller)
            == transformer_transform_step(t, chunk, controller),
{
}

/// A transform that throws or rejects with `r` errors the readable side and
/// the writable side with `r`, and the write rejects with `r`.
pub proof fn lemma_failed_transform_errors_both_sides(s: TransformStream, r: ValueId)
    ensures
        transform_settled(s, Err(r)).1.contains(Effect::ErrorReadable(r)),
        transform_settled(s, Err(r)).1.contains(Effect::ErrorWritableIfNeeded(r)),
        transform_settled(s, Err(r)).2 == Err::<(), TransformStreamError>(
            TransformStreamError::Thrown(r),
        ),
{
    let effects = transform_settled(s, Err(r)).1;
    assert(effects[0] == Effect::ErrorReadable(r));
    assert(effects[1] == Effect::ErrorWritableIfNeeded(r));
}

/// The first close of a new stream calls the transformer's `flush` with the
/// controller; the first abort or cancel calls its `cancel` with the abort or
/// cancel reason.
pub proof fn lemma_finish_calls_the_transformer(
    t: Transformer,
    p: PromiseId,
    finish: PromiseId,
    controller: ValueId,
    reason: ValueId,
)
    ensures
        close_start(initial_stream(t, p), finish, controller).1 == (FinishStart::Started {
            finish: finish,
            algorithm: transformer_flush_step(t, controller),
        }),
        cancel_start(initial_stream(t, p), finish, reason).1 == (FinishStart::Started {
            finish: finish,
            algorithm: transformer_cancel_step(t, reason),
        }),
{
}

/// Whenever the transformer has a `start` method, starting the stream calls
/// it, with the transformer as `this` and the controller as argument,
/// whatever other methods the transformer has; without one, nothing is
/// called and the start promise is fulfilled.
pub proof fn lemma_start_calls_start(t: Transformer, controller: ValueId)
    ensures
        t.start is Some ==> start_step(t, controller) == (StartStep::Call {
            method: t.start->0,
            receiver: t.object,
            controller: controller,
        }),
        t.start is None ==> start_step(t, controller) == StartStep::Fulfilled,
{
}

/// Each method that a transformer has becomes its algorithm, bound to the
/// transformer object, whatever other methods it has; a missing method gives
/// the identity transform, or nothing to flush or cancel.
pub proof fn lemma_transformer_methods_become_algorithms(t: Transformer, p: PromiseId)
    ensures
        initial_stream(t, p).backpressure,
        initial_stream(t, p).backpressure_change_promise == Some(p),
        initial_stream(t, p).controller.finish_promise is None,
        t.transform is Some ==> initial_stream(t, p).controller.transform_algorithm == Some(
            TransformAlgorithm::Function { method: t.transform->0, receiver: t.object },
        ),
        t.transform is None ==> initial_stream(t, p).controller.transform_algorithm == Some(
            TransformAlgorithm::Identity,
        ),
        t.flush is Some ==> initial_stream(t, p).controller.flush_algorithm == Some(
            FlushAlgorithm::Function { method: t.flush->0, receiver: t.object },
        ),
        t.flush is None ==> initial_stream(t, p).controller.flush_algorithm == Some(
            FlushAlgorithm::Noop,
        ),
        t.cancel is Some ==> initial_stream(t, p).controller.cancel_algorithm == Some(
            CancelAlgorithm::Function { method: t.cancel->0, receiver: t.object },
        ),
        t.cancel is None ==> initial_stream(t, p).controller.cancel_algorithm == Some(
            CancelAlgorithm::Noop,
        ),
{
}

/// For every controller, a write under a transformer method calls that
/// method once, with its receiver as `this` and the chunk and the controller
/// as arguments; under the identity transform the chunk itself goes to the
/// readable side.
pub proof fn lemma_write_step_of_any_controller(
    algorithm: TransformAlgorithm,
    chunk: ValueId,
    controller: ValueId,
)
    ensures
        algorithm is Identity ==> transform_step(algorithm, chunk, controller) == (
        TransformStep::Enqueue { chunk: chunk }),
        algorithm matches TransformAlgorithm::Function { method, receiver } ==> transform_step(
            algorithm,
            chunk,
            controller,
        ) == (TransformStep::Call {
            method: method,
            receiver: receiver,
            chunk: chunk,
            controller: controller,
        }),
{
}

/// For every stream whose finish has not started, whatever its backpressure
/// and pending promise: the first close runs the controller's flush (the
/// transformer's `flush` with the controller, when there is one), the first
/// abort or cancel runs its cancel with the reason, and either way the
/// stream keeps its backpressure and promise, takes `finish` as its finish
/// promise and drops its algorithms.
pub proof fn lemma_first_finish_runs_the_transformer(
    s: TransformStream,
    finish: PromiseId,
    controller: ValueId,
    reason: ValueId,
)
    requires
        s.controller.finish_promise is None,
    ensures
        s.controller.flush_algorithm matches Some(FlushAlgorithm::Function { method, receiver })
            ==> close_start(s, finish, controller).1 == (FinishStart::Started {
            finish: finish,
            algorithm: FlushStep::Call { method: method, receiver: receiver, controller: controller },
        }),
        !(s.controller.flush_algorithm matches Some(FlushAlgorithm::Function { .. })) ==> close_start(
            s,
            finish,
            controller,
        ).1 == (FinishStart::Started { finish: finish, algorithm: FlushStep::Fulfilled }),
        s.controller.cancel_algorithm matches Some(CancelAlgorithm::Function { method, receiver })
            ==> cancel_start(s, finish, reason).1 == (FinishStart::Started {
            finish: finish,
            algorithm: CancelStep::Call { method: method, receiver: receiver, reason: reason },
        }),
        !(s.controller.cancel_algorithm matches Some(CancelAlgorithm::Function { .. }))
            ==> cancel_start(s, finish, reason).1 == (FinishStart::Started {
            finish: finish,
            algorithm: CancelStep::Fulfilled,
        }),
        close_start(s, finish, controller).0 == cancel_start(s, finish, reason).0,
        close_start(s, finish, controller).0.backpressure == s.backpressure,
        close_start(s, finish, controller).0.backpressure_change_promise
            == s.backpressure_change_promise,
        close_start(s, finish, controller).0.controller.finish_promise == Some(finish),
        algorithms_cleared(close_start(s, finish, controller).0.controller),
{
}

/// Erroring, terminating and unblocking, for every stream: backpressure is
/// off, no promise is left for writes to wait on, the algorithms are dropped
/// and the finish promise stays; the writable side is errored with the given
/// value, after the readable side is errored with it (an error) or closed (a
/// termination).
pub proof fn lemma_error_and_terminate_outcomes(s: TransformStream, e: ValueId)
    ensures
        forall|op: StreamOperation|
            (op == StreamOperation::Error { error: e } || op
                == StreamOperation::Terminate { terminated_error: e } || op
                == StreamOperation::ErrorWritableAndUnblockWrite { error: e }) ==> {
                let t = #[trigger] after(s, op);
                &&& !t.backpressure
                &&& t.backpressure_change_promise is None
                &&& algorithms_cleared(t.controller)
                &&& t.controller.finish_promise == s.controller.finish_promise
                &&& effects_of(s, op).contains(Effect::ErrorWritableIfNeeded(e))
            },
        effects_of(s, StreamOperation::Error { error: e })[0] == Effect::ErrorReadable(e),
        effects_of(s, StreamOperation::Terminate { terminated_error: e })[0]
            == Effect::CloseReadable,
        effects_of(s, StreamOperation::ErrorWritableAndUnblockWrite { error: e })[0]
            == Effect::ErrorWritableIfNeeded(e),
{
    assert(effects_of(s, StreamOperation::Error { error: e })[1] == Effect::ErrorWritableIfNeeded(
        e,
    ));
    assert(effects_of(s, StreamOperation::Terminate { terminated_error: e })[1]
        == Effect::ErrorWritableIfNeeded(e));
    assert(effects_of(s, StreamOperation::ErrorWritableAndUnblockWrite { error: e })[0]
        == Effect::ErrorWritableIfNeeded(e));
}

/// Handing a chunk to the readable side, for every stream. A refused chunk
/// changes nothing and is a `TypeError`. An accepted chunk leaves the
/// algorithms and the finish alone and turns backpressure on when the
/// readable side reports it (and otherwise keeps it as it was). A chunk whose
/// enqueueing threw errors the writable side with the thrown value, drops the
/// algorithms, and throws the readable side's stored error (a `TypeError` if
/// it kept none).
pub proof fn lemma_enqueue_outcomes(
    s: TransformStream,
    has_backpressure: bool,
    reason: ValueId,
    stored_error: Option<ValueId>,
    new_promise: PromiseId,
)
    ensures
        enqueue_step(s, EnqueueOutcome::NotPermitted, new_promise) == (
            s,
            Seq::<Effect>::empty(),
            Err::<(), TransformStreamError>(TransformStreamError::EnqueueNotPermitted),
        ),
        ({
            let (t, effects, result) = enqueue_step(
                s,
                EnqueueOutcome::Accepted { has_backpressure },
                new_promise,
            );
            &&& t.backpressure == (s.backpressure || has_backpressure)
            &&& t.controller == s.controller
            &&& result == Ok::<(), TransformStreamError>(())
            &&& forall|i: int| 0 <= i < effects.len() ==> #[trigger] effects[i] is ResolvePromise
        }),
        ({
            let (t, effects, result) = enqueue_step(
                s,
                EnqueueOutcome::Threw { reason, stored_error },
                new_promise,
            );
            &&& effects[0] == Effect::ErrorWritableIfNeeded(reason)
            &&& !t.backpressure
            &&& algorithms_cleared(t.controller)
            &&& t.controller.finish_promise == s.controller.finish_promise
            &&& stored_error matches Some(e) ==> result == Err::<(), TransformStreamError>(
                TransformStreamError::Thrown(e),
            )
            &&& stored_error is None ==> result == Err::<(), TransformStreamError>(
                TransformStreamError::EnqueueFailedWithoutStoredError,
            )
        }),
{
}

/// A write waits exactly when there is backpressure and a promise to wait
/// on, and then waits on that promise; setting backpressure (or a pull, which
/// sets it off) takes the given flag and the fresh promise and leaves the
/// controller alone.
pub proof fn lemma_write_waits_on_backpressure(
    s: TransformStream,
    backpressure: bool,
    new_promise: PromiseId,
)
    ensures
        (write_step(s) is AwaitBackpressure) == (s.backpressure
            && s.backpressure_change_promise is Some),
        write_step(s) matches WriteStep::AwaitBackpressure(p) ==> s.backpressure_change_promise
            == Some(p),
        with_backpressure(s, backpressure, new_promise).backpressure == backpressure,
        with_backpressure(s, backpressure, new_promise).backpressure_change_promise == Some(
            new_promise,
        ),
        with_backpressure(s, backpressure, new_promise).controller == s.controller,
        after(s, StreamOperation::SourcePull { new_promise }).backpressure == false,
{
}

/// A transform that fulfilled changes nothing; the start promise settles
/// with what `start` returned or threw.
pub proof fn lemma_transform_and_start_settle(
    s: TransformStream,
    start_promise: PromiseId,
    v: ValueId,
)
    ensures
        transform_settled(s, Ok(())) == (s, Seq::<Effect>::empty(), Ok::<
            (),
            TransformStreamError,
        >(())),
        start_settled(start_promise, Ok(v)) == Effect::ResolvePromiseWith(start_promise, v),
        start_settled(start_promise, Err(v)) == Effect::RejectPromise(start_promise, v),
{
}

/// When no side holds an error, an abort errors the readable side with the
/// abort reason (fulfilled cancel) or the rejection reason (rejected cancel),
/// and a cancel errors the writable side with the cancel reason or the
/// rejection reason; the finish promise then resolves or rejects with that
/// same reason, as the last effect.
pub proof fn lemma_abort_and_cancel_outcomes(
    s: TransformStream,
    finish: PromiseId,
    reason: ValueId,
    error: ValueId,
    readable: ReadableState,
    writable: WritableState,
)
    requires
        !(readable is Errored),
        !(writable is Errored),
    ensures
        abort_settled(finish, reason, Ok(()), readable) == seq![
            Effect::ErrorReadable(reason),
            Effect::ResolvePromise(finish),
        ],
        abort_settled(finish, reason, Err(error), readable) == seq![
            Effect::ErrorReadable(error),
            Effect::RejectPromise(finish, error),
        ],
        cancel_settled(s, finish, reason, Ok(()), writable).1[0] == Effect::ErrorWritableIfNeeded(
            reason,
        ),
        cancel_settled(s, finish, reason, Ok(()), writable).1.last() == Effect::ResolvePromise(
            finish,
        ),
        cancel_settled(s, finish, reason, Err(error), writable).1[0]
            == Effect::ErrorWritableIfNeeded(error),
        cancel_settled(s, finish, reason, Err(error), writable).1.last() == Effect::RejectPromise(
            finish,
            error,
        ),
        !cancel_settled(s, finish, reason, Ok(()), writable).0.backpressure,
        algorithms_cleared(cancel_settled(s, finish, reason, Err(error), writable).0.controller),
{
}

} // verus!
