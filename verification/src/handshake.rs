//! One handshake, as a state machine.
//!
//! The machine never writes to a client and never waits.  It is told what
//! happened (an `Event`) and answers with what to do next (an `Action`):
//! write these messages, wait to be woken, or stop with this result.  The
//! caller performs the action and comes back with the next event.  The
//! machine itself registers its waiter, asks the registry for the outcome
//! and removes its slot when the handshake is given up.

use vstd::prelude::*;
use crate::error::AuthError;
use crate::greeting::{greeting_text, hello_message};
use crate::registry::{
    after_await,
    after_cancel,
    after_register,
    await_result,
    Registry,
    Slots,
    Wait,
    WaiterHandle,
};
use crate::session_id::{is_session_id, new_psql_session_id};

verus! {

/// Keys for a later password exchange with the database.
#[derive(Debug, Clone, Copy, PartialEq, Eq)]
pub struct ScramKeys {
    pub client_key: [u8; 32],
    pub server_key: [u8; 32],
}

/// What a successful handshake ends with: the payload that the web flow
/// reported, and keys for a later password exchange, which this handshake
/// never has.
#[derive(Debug, PartialEq, Eq)]
pub struct NodeInfo<T> {
    pub db_info: T,
    pub scram_keys: Option<ScramKeys>,
}

/// A message for the client.  How it is laid out on the wire is the
/// transport's business.
#[derive(Debug, PartialEq, Eq)]
pub enum Message {
    /// Authentication is acknowledged.
    AuthenticationOk,
    /// The parameter status that announces the client encoding.
    ClientEncoding,
    /// A notice with a text for the user.
    Notice(String),
}

/// A message with its text as a sequence of characters.
pub enum MessageText {
    AuthenticationOk,
    ClientEncoding,
    Notice(Seq<char>),
}

impl View for Message {
    type V = MessageText;

    open spec fn view(&self) -> MessageText {
        match *self {
            Message::AuthenticationOk => MessageText::AuthenticationOk,
            Message::ClientEncoding => MessageText::ClientEncoding,
            Message::Notice(text) => MessageText::Notice(text@),
        }
    }
}

/// What the caller is asked to do next.
#[derive(Debug, PartialEq, Eq)]
pub enum Action<T> {
    /// Write the messages in this order, and flush after the last one if
    /// `flush` is set.  Answer with `Sent` or `SendFailed`.
    Send { messages: Vec<Message>, flush: bool },
    /// Nothing has been reported yet: wait until the registry may have
    /// something, the connection closes or time runs out.  Answer with
    /// `Woken`, `ConnectionClosed` or `TimedOut`.
    Wait,
    /// The event did not concern the handshake as it stands: go on with what
    /// was asked before.
    Nothing,
    /// The handshake is over, with this result.
    Finish(Result<NodeInfo<T>, AuthError>),
}

/// An action with its messages as texts.
pub enum ActionView<T> {
    Send { messages: Seq<MessageText>, flush: bool },
    Wait,
    Nothing,
    Finish(Result<NodeInfo<T>, AuthError>),
}

impl<T> View for Action<T> {
    type V = ActionView<T>;

    open spec fn view(&self) -> ActionView<T> {
        match *self {
            Action::Send { messages, flush } => ActionView::Send {
                messages: messages@.map_values(|m: Message| m@),
                flush,
            },
            Action::Wait => ActionView::Wait,
            Action::Nothing => ActionView::Nothing,
            Action::Finish(result) => ActionView::Finish(result),
        }
    }
}

/// What happened since the last action was handed out.
#[derive(Debug, PartialEq, Eq)]
pub enum Event {
    /// The messages were written.
    Sent,
    /// Writing the messages failed, for this reason.
    SendFailed(String),
    /// The registry may hold an outcome.
    Woken,
    /// The client closed the connection.
    ConnectionClosed,
    /// The time allowed for the handshake ran out.
    TimedOut,
}

/// Where a handshake stands.
#[derive(Debug, PartialEq, Eq)]
pub enum Handshake<T> {
    /// The waiter is registered and the greeting is being written.
    AwaitingGreetingSend { waiter: WaiterHandle },
    /// The greeting is out; the outcome of the web flow is awaited.
    AwaitingExternalCompletion { waiter: WaiterHandle },
    /// The web flow succeeded and the last notice is being written.
    AwaitingNoticeSend { payload: T },
    /// The handshake is over.
    Done,
}

/// The messages that open a handshake: the acknowledgement, the client
/// encoding, and the greeting with the link.
pub open spec fn greeting_messages(redirect_uri: Seq<char>, session_id: Seq<char>) -> Seq<
    MessageText,
> {
    seq![
        MessageText::AuthenticationOk,
        MessageText::ClientEncoding,
        MessageText::Notice(greeting_text(redirect_uri, session_id)),
    ]
}

/// The one notice that follows a success.
pub open spec fn connecting_messages() -> Seq<MessageText> {
    seq![MessageText::Notice("Connecting to database."@)]
}

/// How a handshake begins under the session id `id`, on a registry that
/// held `slots`: with the greeting to write and the waiter registered, or,
/// where the id had a slot already, with nothing but the refusal.
pub open spec fn starts<T>(
    slots: Slots<T>,
    redirect_uri: Seq<char>,
    id: Seq<char>,
    state: Handshake<T>,
    action: ActionView<T>,
) -> bool {
    if slots.contains_key(id) {
        &&& state is Done
        &&& action == ActionView::<T>::Finish(Err(AuthError::DuplicateSession))
    } else {
        &&& state matches Handshake::AwaitingGreetingSend { waiter }
        &&& waiter@ == id
        &&& action == (ActionView::<T>::Send {
            messages: greeting_messages(redirect_uri, id),
            flush: true,
        })
    }
}

/// How a handshake goes on with what the registry answered: it keeps
/// waiting, writes the last notice, or stops with the failure that was
/// reported.
pub open spec fn after_wait<T>(wait: Wait<T>) -> (Handshake<T>, ActionView<T>) {
    match wait {
        Wait::Pending(waiter) => (
            Handshake::AwaitingExternalCompletion { waiter },
            ActionView::Wait,
        ),
        Wait::Ready(Ok(payload)) => (
            Handshake::AwaitingNoticeSend { payload },
            ActionView::Send { messages: connecting_messages(), flush: false },
        ),
        Wait::Ready(Err(error)) => (Handshake::Done, ActionView::Finish(Err(error))),
    }
}

/// The state and the action that follow `event` in `state`, on a registry
/// that holds `slots`.
pub open spec fn step_outcome<T>(slots: Slots<T>, state: Handshake<T>, event: Event) -> (
    Handshake<T>,
    ActionView<T>,
) {
    match state {
        Handshake::AwaitingGreetingSend { waiter } => match event {
            Event::Sent => after_wait(await_result(slots, waiter)),
            Event::SendFailed(reason) => (
                Handshake::Done,
                ActionView::Finish(Err(AuthError::TransportError(reason))),
            ),
            Event::ConnectionClosed | Event::TimedOut => (
                Handshake::Done,
                ActionView::Finish(Err(AuthError::Cancelled)),
            ),
            Event::Woken => (state, ActionView::Nothing),
        },
        Handshake::AwaitingExternalCompletion { waiter } => match event {
            Event::Woken => after_wait(await_result(slots, waiter)),
            Event::ConnectionClosed | Event::TimedOut => (
                Handshake::Done,
                ActionView::Finish(Err(AuthError::Cancelled)),
            ),
            Event::Sent | Event::SendFailed(_) => (state, ActionView::Nothing),
        },
        Handshake::AwaitingNoticeSend { payload } => match event {
            Event::Sent => (
                Handshake::Done,
                ActionView::Finish(Ok(NodeInfo { db_info: payload, scram_keys: None })),
            ),
            Event::SendFailed(reason) => (
                Handshake::Done,
                ActionView::Finish(Err(AuthError::TransportError(reason))),
            ),
            Event::ConnectionClosed | Event::TimedOut => (
                Handshake::Done,
                ActionView::Finish(Err(AuthError::Cancelled)),
            ),
            Event::Woken => (state, ActionView::Nothing),
        },
        Handshake::Done => (Handshake::Done, ActionView::Nothing),
    }
}

/// The registry's slots after `event` in `state`.
pub open spec fn step_slots<T>(slots: Slots<T>, state: Handshake<T>, event: Event) -> Slots<T> {
    match state {
        Handshake::AwaitingGreetingSend { waiter } => match event {
            Event::Sent => after_await(slots, waiter@),
            Event::SendFailed(_) | Event::ConnectionClosed | Event::TimedOut => after_cancel(
                slots,
                waiter@,
            ),
            Event::Woken => slots,
        },
        Handshake::AwaitingExternalCompletion { waiter } => match event {
            Event::Woken => after_await(slots, waiter@),
            Event::ConnectionClosed | Event::TimedOut => after_cancel(slots, waiter@),
            Event::Sent | Event::SendFailed(_) => slots,
        },
        Handshake::AwaitingNoticeSend { .. } | Handshake::Done => slots,
    }
}

impl<T> Handshake<T> {
    /// The session id whose waiter the handshake holds, if it holds one.
    pub open spec fn session(self) -> Option<Seq<char>> {
        match self {
            Handshake::AwaitingGreetingSend { waiter } => Some(waiter@),
            Handshake::AwaitingExternalCompletion { waiter } => Some(waiter@),
            Handshake::AwaitingNoticeSend { .. } | Handshake::Done => None,
        }
    }

    /// Begins a handshake under a fresh session id.
    ///
    /// Which id is drawn is not known here; whatever it is, the handshake
    /// begins as `start_with_id` begins it under that id.
    pub fn start(registry: &mut Registry<T>, redirect_uri: &str) -> (started: (
        Handshake<T>,
        Action<T>,
    ))
        ensures
            exists|id: Seq<char>|
                {
                    &&& is_session_id(id)
                    &&& final(registry)@ == after_register(old(registry)@, id)
                    &&& #[trigger] starts(old(registry)@, redirect_uri@, id, started.0, started.1@)
                },
    {
        let session_id = new_psql_session_id();
        let ghost id = session_id@;
        let started = Self::start_with_id(registry, redirect_uri, session_id);
        assert(starts(old(registry)@, redirect_uri@, id, started.0, started.1@));
        started
    }

    /// Begins a handshake under the given session id: registers the waiter
    /// and asks for the greeting to be written and flushed.  Where the id has
    /// a slot already, nothing is registered and the handshake is over at
    /// once, with `DuplicateSession`.
    pub fn start_with_id(
        registry: &mut Registry<T>,
        redirect_uri: &str,
        session_id: String,
    ) -> (started: (Handshake<T>, Action<T>))
        ensures
            final(registry)@ == after_register(old(registry)@, session_id@),
            starts(old(registry)@, redirect_uri@, session_id@, started.0, started.1@),
    {
        let greeting = hello_message(redirect_uri, session_id.as_str());
        match registry.register(session_id) {
            Err(error) => (Handshake::Done, Action::Finish(Err(error))),
            Ok(waiter) => {
                let mut messages: Vec<Message> = Vec::new();
                messages.push(Message::AuthenticationOk);
                messages.push(Message::ClientEncoding);
                messages.push(Message::Notice(greeting));
                assert(messages@.map_values(|m: Message| m@) =~= greeting_messages(
                    redirect_uri@,
                    session_id@,
                ));
                (Handshake::AwaitingGreetingSend { waiter }, Action::Send { messages, flush: true })
            },
        }
    }

    /// Takes the handshake one step further: from where it stands and what
    /// happened to where it stands next and what to do.
    ///
    /// Once the greeting is out, and whenever the handshake is woken, the
    /// registry is asked for the outcome.  A failed write, a closed
    /// connection and a timeout end the handshake and remove its slot.  An
    /// event that does not belong to the state changes nothing.
    pub fn step(self, registry: &mut Registry<T>, event: Event) -> (next: (Handshake<T>, Action<T>))
        ensures
            (next.0, next.1@) == step_outcome(old(registry)@, self, event),
            final(registry)@ == step_slots(old(registry)@, self, event),
    {
        match self {
            Handshake::AwaitingGreetingSend { waiter } => match event {
                Event::Sent => Self::ask(registry, waiter),
                Event::SendFailed(reason) => {
                    registry.cancel(waiter);
                    (Handshake::Done, Action::Finish(Err(AuthError::TransportError(reason))))
                },
                Event::ConnectionClosed | Event::TimedOut => {
                    registry.cancel(waiter);
                    (Handshake::Done, Action::Finish(Err(AuthError::Cancelled)))
                },
                Event::Woken => (Handshake::AwaitingGreetingSend { waiter }, Action::Nothing),
            },
            Handshake::AwaitingExternalCompletion { waiter } => match event {
                Event::Woken => Self::ask(registry, waiter),
                Event::ConnectionClosed | Event::TimedOut => {
                    registry.cancel(waiter);
                    (Handshake::Done, Action::Finish(Err(AuthError::Cancelled)))
                },
                Event::Sent | Event::SendFailed(_) => (
                    Handshake::AwaitingExternalCompletion { waiter },
                    Action::Nothing,
                ),
            },
            Handshake::AwaitingNoticeSend { payload } => match event {
                Event::Sent => (
                    Handshake::Done,
                    Action::Finish(Ok(NodeInfo { db_info: payload, scram_keys: None })),
                ),
                Event::SendFailed(reason) => (
                    Handshake::Done,
                    Action::Finish(Err(AuthError::TransportError(reason))),
                ),
                Event::ConnectionClosed | Event::TimedOut => (
                    Handshake::Done,
                    Action::Finish(Err(AuthError::Cancelled)),
                ),
                Event::Woken => (Handshake::AwaitingNoticeSend { payload }, Action::Nothing),
            },
            Handshake::Done => (Handshake::Done, Action::Nothing),
        }
    }

    /// Asks the registry for the outcome and goes on with the answer.
    fn ask(registry: &mut Registry<T>, waiter: WaiterHandle) -> (next: (Handshake<T>, Action<T>))
        ensures
            (next.0, next.1@) == after_wait(await_result(old(registry)@, waiter)),
            final(registry)@ == after_await(old(registry)@, waiter@),
    {
        match registry.await_completion(waiter) {
            Wait::Pending(waiter) => (Handshake::AwaitingExternalCompletion { waiter }, Action::Wait),
            Wait::Ready(Ok(payload)) => {
                let mut messages: Vec<Message> = Vec::new();
                messages.push(Message::Notice(String::from_str("Connecting to database.")));
                assert(messages@.map_values(|m: Message| m@) =~= connecting_messages());
                (Handshake::AwaitingNoticeSend { payload }, Action::Send { messages, flush: false })
            },
            Wait::Ready(Err(error)) => (Handshake::Done, Action::Finish(Err(error))),
        }
    }
}

} // verus!
