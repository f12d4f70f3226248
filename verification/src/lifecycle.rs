//! What holds of a session's slot over several operations.
//!
//! Each statement is about the registry as a map from session ids to slot
//! states, in the terms in which the operations themselves are specified.

use vstd::prelude::*;
use crate::error::{AuthError, CompletionError};
use crate::handshake::{
    connecting_messages,
    step_outcome,
    step_slots,
    ActionView,
    Event,
    Handshake,
    NodeInfo,
};
use crate::registry::{
    after_await,
    after_cancel,
    after_complete,
    after_register,
    await_result,
    complete_result,
    is_pending,
    register_error,
    Slots,
    Wait,
    WaiterHandle,
};

verus! {

/// Whether two registries hold the same for `id`.
pub open spec fn same_slot<T>(a: Slots<T>, b: Slots<T>, id: Seq<char>) -> bool {
    a.contains_key(id) == b.contains_key(id) && (a.contains_key(id) ==> a[id] == b[id])
}

/// After an attempt to register a session id, whether it succeeded or not,
/// the next attempt to register the same id fails with `DuplicateSession`
/// and changes nothing.
pub proof fn second_registration_is_refused<T>(slots: Slots<T>, id: Seq<char>)
    ensures
        register_error(after_register(slots, id), id) == Some(AuthError::DuplicateSession),
        after_register(after_register(slots, id), id) == after_register(slots, id),
{
}

/// A completion for a session id under which no connection waits fails with
/// `UnknownSession`, whatever the outcome, and changes nothing.
pub proof fn completion_without_waiter_is_unknown<T>(
    slots: Slots<T>,
    id: Seq<char>,
    outcome: Result<T, AuthError>,
)
    requires
        !is_pending(slots, id),
    ensures
        complete_result(slots, id) == Err::<(), CompletionError>(CompletionError::UnknownSession),
        after_complete(slots, id, outcome) == slots,
{
}

/// A session is registered, a success is reported for it, and the holder of
/// the handle asks for the outcome: the report is accepted, the holder gets
/// exactly the payload that was reported, the registry is as it was before
/// the registration, and a later report for the same id fails with
/// `UnknownSession`.
pub proof fn completion_reaches_its_waiter<T>(slots: Slots<T>, handle: WaiterHandle, payload: T)
    requires
        register_error(slots, handle@) is None,
    ensures
        ({
            let registered = after_register(slots, handle@);
            let completed = after_complete(registered, handle@, Ok(payload));
            let consumed = after_await(completed, handle@);
            &&& complete_result(registered, handle@) == Ok::<(), CompletionError>(())
            &&& await_result(completed, handle) == Wait::Ready(Ok(payload))
            &&& consumed == slots
            &&& complete_result(consumed, handle@) == Err::<(), CompletionError>(
                CompletionError::UnknownSession,
            )
        }),
{
    let registered = after_register(slots, handle@);
    let completed = after_complete(registered, handle@, Ok(payload));
    assert(after_await(completed, handle@) =~= slots);
}

/// A reported failure reaches the holder of the handle as it was reported.
pub proof fn failure_reaches_its_waiter<T>(slots: Slots<T>, handle: WaiterHandle, error: AuthError)
    requires
        is_pending(slots, handle@),
    ensures
        await_result(after_complete(slots, handle@, Err(error)), handle) == Wait::<T>::Ready(
            Err(error),
        ),
{
}

/// Once a completion was accepted for a session id, a second one fails with
/// `UnknownSession` and does not replace the outcome that was reported first.
pub proof fn second_completion_is_rejected<T>(
    slots: Slots<T>,
    id: Seq<char>,
    first: Result<T, AuthError>,
    second: Result<T, AuthError>,
)
    ensures
        complete_result(after_complete(slots, id, first), id) == Err::<(), CompletionError>(
            CompletionError::UnknownSession,
        ),
        after_complete(after_complete(slots, id, first), id, second) == after_complete(
            slots,
            id,
            first,
        ),
{
}

/// After the wait for a session id was given up, a completion for that id
/// fails with `UnknownSession`; and a registration that is given up leaves
/// the registry as it was before.
pub proof fn cancelled_wait_is_unknown<T>(slots: Slots<T>, id: Seq<char>)
    ensures
        complete_result(after_cancel(slots, id), id) == Err::<(), CompletionError>(
            CompletionError::UnknownSession,
        ),
        !after_cancel(slots, id).contains_key(id),
        register_error(slots, id) is None ==> after_cancel(after_register(slots, id), id) == slots,
{
    if register_error(slots, id) is None {
        assert(after_cancel(after_register(slots, id), id) =~= slots);
    }
}

/// Whatever is done under one session id leaves the slot of every other
/// session id as it was.
pub proof fn sessions_are_independent<T>(
    slots: Slots<T>,
    id: Seq<char>,
    other: Seq<char>,
    outcome: Result<T, AuthError>,
)
    requires
        id != other,
    ensures
        same_slot(after_register(slots, id), slots, other),
        same_slot(after_complete(slots, id, outcome), slots, other),
        same_slot(after_await(slots, id), slots, other),
        same_slot(after_cancel(slots, id), slots, other),
{
}

/// Of two sessions that both wait, completing the first leaves the second
/// waiting: the holder of its handle is still told to wait, and a later
/// completion for it is accepted and reaches it.
pub proof fn completion_leaves_other_waiter<T>(
    slots: Slots<T>,
    id: Seq<char>,
    other: WaiterHandle,
    outcome: Result<T, AuthError>,
    later: Result<T, AuthError>,
)
    requires
        id != other@,
        is_pending(slots, id),
        is_pending(slots, other@),
    ensures
        ({
            let completed = after_complete(slots, id, outcome);
            &&& is_pending(completed, other@)
            &&& await_result(completed, other) == Wait::<T>::Pending(other)
            &&& complete_result(completed, other@) == Ok::<(), CompletionError>(())
            &&& await_result(after_complete(completed, other@, later), other) == Wait::Ready(
                later,
            )
        }),
{
}

/// A handshake that waits, and for whose session a success is reported, goes
/// on to the last notice when it is woken, takes its slot out of the
/// registry, and ends with exactly the payload that was reported and no keys.
pub proof fn reported_success_ends_the_handshake<T>(
    slots: Slots<T>,
    waiter: WaiterHandle,
    payload: T,
)
    requires
        is_pending(slots, waiter@),
    ensures
        ({
            let waiting = Handshake::<T>::AwaitingExternalCompletion { waiter };
            let completed = after_complete(slots, waiter@, Ok(payload));
            let woken = step_outcome(completed, waiting, Event::Woken);
            &&& woken == (
                Handshake::AwaitingNoticeSend { payload },
                ActionView::<T>::Send { messages: connecting_messages(), flush: false },
            )
            &&& step_slots(completed, waiting, Event::Woken) == slots.remove(waiter@)
            &&& step_outcome(slots.remove(waiter@), woken.0, Event::Sent) == (
                Handshake::<T>::Done,
                ActionView::Finish(Ok(NodeInfo { db_info: payload, scram_keys: None })),
            )
        }),
{
    let waiting = Handshake::<T>::AwaitingExternalCompletion { waiter };
    let completed = after_complete(slots, waiter@, Ok(payload));
    assert(step_slots(completed, waiting, Event::Woken) =~= slots.remove(waiter@));
}

/// A handshake that waits, and for whose session a failure is reported, ends
/// when it is woken, with the failure as it was reported, and its slot is
/// gone.
pub proof fn reported_failure_ends_the_handshake<T>(
    slots: Slots<T>,
    waiter: WaiterHandle,
    error: AuthError,
)
    requires
        is_pending(slots, waiter@),
    ensures
        ({
            let waiting = Handshake::<T>::AwaitingExternalCompletion { waiter };
            let completed = after_complete(slots, waiter@, Err(error));
            &&& step_outcome(completed, waiting, Event::Woken) == (
                Handshake::<T>::Done,
                ActionView::<T>::Finish(Err(error)),
            )
            &&& step_slots(completed, waiting, Event::Woken) == slots.remove(waiter@)
        }),
{
    let waiting = Handshake::<T>::AwaitingExternalCompletion { waiter };
    let completed = after_complete(slots, waiter@, Err(error));
    assert(step_slots(completed, waiting, Event::Woken) =~= slots.remove(waiter@));
}

/// A greeting that cannot be written ends the handshake with a transport
/// error that carries the reason, and the session has no slot afterwards, so
/// that a completion for it fails with `UnknownSession`.
pub proof fn failed_greeting_ends_the_handshake<T>(
    slots: Slots<T>,
    waiter: WaiterHandle,
    reason: String,
)
    ensures
        ({
            let greeting = Handshake::<T>::AwaitingGreetingSend { waiter };
            let after = step_slots(slots, greeting, Event::SendFailed(reason));
            &&& step_outcome(slots, greeting, Event::SendFailed(reason)) == (
                Handshake::<T>::Done,
                ActionView::<T>::Finish(Err(AuthError::TransportError(reason))),
            )
            &&& !after.contains_key(waiter@)
            &&& complete_result(after, waiter@) == Err::<(), CompletionError>(
                CompletionError::UnknownSession,
            )
        }),
{
}

/// A handshake that lets go of its waiter leaves no slot behind: where the
/// handshake held a waiter before a step and holds none after it, the
/// session id of that waiter has no slot in the registry.
pub proof fn released_waiter_leaves_no_slot<T>(slots: Slots<T>, state: Handshake<T>, event: Event)
    requires
        state.session() is Some,
        step_outcome(slots, state, event).0.session() is None,
    ensures
        !step_slots(slots, state, event).contains_key(state.session().unwrap()),
{
}

/// A step never touches the slot of a session other than the handshake's
/// own.
pub proof fn step_keeps_other_sessions<T>(
    slots: Slots<T>,
    state: Handshake<T>,
    event: Event,
    other: Seq<char>,
)
    requires
        state.session() != Some(other),
    ensures
        same_slot(step_slots(slots, state, event), slots, other),
{
}

} // verus!
