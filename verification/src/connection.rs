//! The connection manager: at most one live handle, held together with the time
//! the session began.
//!
//! Talking to the presence service is the caller's part. Each operation is split
//! at that point: a `begin_` function decides what is to be done, the caller does
//! it while still holding the state exclusively, and a `finish_` function takes
//! what came of it.

use crate::builder::build;
use crate::config::ActivityConfig;
use crate::message::{Message, PresenceError};
use crate::payload::{payload_for, ActivityPayload};
use crate::token::is_fresh_party_id;
use vstd::prelude::*;

verus! {

/// The application identifier that every client of the presence service is
/// created with.
pub const DISCORD_APP_ID: &'static str = "1454908743140511786";

/// A live connection: the handle to the presence service and the time, in whole
/// seconds since the epoch, at which the handshake succeeded.
#[derive(Debug, PartialEq, Eq)]
pub struct Session<H> {
    pub handle: H,
    pub started_at: i64,
}

/// The connection manager's state. It is either disconnected or holds one
/// session, so a start time exists exactly when a handle does.
#[derive(Debug)]
pub struct ConnectionState<H> {
    session: Option<Session<H>>,
}

/// What a connect request leads to.
#[derive(Debug, PartialEq, Eq)]
pub enum ConnectStep {
    /// Nothing: the request is over, with this outcome.
    Reply(Result<Message, PresenceError>),
    /// Create a client with this application identifier, connect it, and read
    /// the clock.
    Handshake { application_id: &'static str },
}

/// What a disconnect request leads to.
#[derive(Debug, PartialEq, Eq)]
pub enum DisconnectStep<H> {
    /// Nothing: the request is over, with this outcome.
    Reply(Result<Message, PresenceError>),
    /// Close this handle, which has left the state.
    Close(H),
}

/// What an update request leads to.
#[derive(Debug, PartialEq, Eq)]
pub enum UpdateStep<'a, H> {
    /// Nothing: the request is over, with this outcome.
    Reply(Result<Message, PresenceError>),
    /// Send this payload through this handle, which stays in the state.
    Send(&'a mut H, ActivityPayload),
}

impl<H> View for ConnectionState<H> {
    type V = Option<Session<H>>;

    closed spec fn view(&self) -> Option<Session<H>> {
        self.session
    }
}

/// The handle held in a state.
pub open spec fn handle_of<H>(state: Option<Session<H>>) -> Option<H> {
    match state {
        Some(session) => Some(session.handle),
        None => None,
    }
}

/// The session start recorded in a state.
pub open spec fn session_start_of<H>(state: Option<Session<H>>) -> Option<i64> {
    match state {
        Some(session) => Some(session.started_at),
        None => None,
    }
}

/// Whether a state counts as connected: whether it holds a handle.
pub open spec fn status_of<H>(state: Option<Session<H>>) -> bool {
    state is Some
}

/// What a connect request leads to: a handshake, unless a handle exists.
pub open spec fn connect_step<H>(state: Option<Session<H>>) -> ConnectStep {
    match state {
        Some(_) => ConnectStep::Reply(Ok(Message::AlreadyConnected)),
        None => ConnectStep::Handshake { application_id: DISCORD_APP_ID },
    }
}

/// The state after a handshake attempt: a successful one is stored, unless a
/// handle exists already; a failed one leaves no trace.
pub open spec fn state_after_handshake<H>(
    state: Option<Session<H>>,
    outcome: Result<Session<H>, String>,
) -> Option<Session<H>> {
    match state {
        Some(_) => state,
        None => match outcome {
            Ok(session) => Some(session),
            Err(_) => None,
        },
    }
}

/// The outcome of a connect request whose handshake came out as `outcome`.
pub open spec fn reply_after_handshake<H>(
    state: Option<Session<H>>,
    outcome: Result<Session<H>, String>,
) -> Result<Message, PresenceError> {
    match state {
        Some(_) => Ok(Message::AlreadyConnected),
        None => match outcome {
            Ok(_) => Ok(Message::Connected),
            Err(cause) => Err(PresenceError::Connect(cause)),
        },
    }
}

/// What a disconnect request leads to: closing the handle, if there is one.
pub open spec fn disconnect_step<H>(state: Option<Session<H>>) -> DisconnectStep<H> {
    match state {
        Some(session) => DisconnectStep::Close(session.handle),
        None => DisconnectStep::Reply(Ok(Message::NotConnected)),
    }
}

/// The state after a disconnect request: cleared, whatever becomes of the close.
pub open spec fn state_after_disconnect<H>(state: Option<Session<H>>) -> Option<Session<H>> {
    None
}

/// The outcome of a disconnect request whose close came out as `outcome`.
pub open spec fn reply_after_close(outcome: Result<(), String>) -> Result<Message, PresenceError> {
    match outcome {
        Ok(_) => Ok(Message::Disconnected),
        Err(cause) => Err(PresenceError::Disconnect(cause)),
    }
}

/// The outcome of an update whose send came out as `outcome`.
pub open spec fn reply_after_send(outcome: Result<(), String>) -> Result<Message, PresenceError> {
    match outcome {
        Ok(_) => Ok(Message::ActivityUpdated),
        Err(cause) => Err(PresenceError::Update(cause)),
    }
}

impl<H> ConnectionState<H> {
    /// The state at process start: disconnected.
    pub fn new() -> (state: Self)
        ensures
            state@ is None,
    {
        ConnectionState { session: None }
    }

    /// Whether a handle is present.
    pub fn status(&self) -> (connected: bool)
        ensures
            connected == status_of(self@),
    {
        self.session.is_some()
    }

    /// When the current session began, if there is one.
    pub fn session_start(&self) -> (start: Option<i64>)
        ensures
            start == session_start_of(self@),
    {
        match &self.session {
            Some(session) => Some(session.started_at),
            None => None,
        }
    }

    /// The held handle, if there is one.
    pub fn handle(&self) -> (handle: Option<&H>)
        ensures
            handle == (match handle_of(self@) {
                Some(held) => Some(&held),
                None => None,
            }),
    {
        match &self.session {
            Some(session) => Some(&session.handle),
            None => None,
        }
    }

    /// Decides a connect request. The state is left as it is.
    pub fn begin_connect(&self) -> (step: ConnectStep)
        ensures
            step == connect_step(self@),
    {
        match &self.session {
            Some(_) => ConnectStep::Reply(Ok(Message::AlreadyConnected)),
            None => ConnectStep::Handshake { application_id: DISCORD_APP_ID },
        }
    }

    /// Takes the result of a handshake: the connected handle with the clock
    /// reading, or the cause of the failure.
    pub fn finish_connect(&mut self, outcome: Result<Session<H>, String>) -> (reply: Result<
        Message,
        PresenceError,
    >)
        ensures
            final(self)@ == state_after_handshake(old(self)@, outcome),
            reply == reply_after_handshake(old(self)@, outcome),
    {
        if self.session.is_some() {
            return Ok(Message::AlreadyConnected);
        }
        match outcome {
            Ok(session) => {
                self.session = Some(session);
                Ok(Message::Connected)
            },
            Err(cause) => Err(PresenceError::Connect(cause)),
        }
    }

    /// Decides a disconnect request. The handle leaves the state before it is
    /// closed, and the session start with it, so that no one can see a handle that
    /// is being closed.
    pub fn begin_disconnect(&mut self) -> (step: DisconnectStep<H>)
        ensures
            final(self)@ == state_after_disconnect(old(self)@),
            step == disconnect_step(old(self)@),
    {
        match self.session.take() {
            Some(session) => DisconnectStep::Close(session.handle),
            None => DisconnectStep::Reply(Ok(Message::NotConnected)),
        }
    }

    /// Decides an update request. Without a handle it is refused before anything
    /// is built. With one, the step holds the handle to send through and the
    /// payload to send, built with a fresh party identifier and the session's
    /// start; the session start stays as it is, whatever is done to the handle.
    pub fn begin_update<'a>(&'a mut self, config: &ActivityConfig) -> (step: UpdateStep<'a, H>)
        ensures
            old(self)@ is None ==> final(self)@ is None && step == UpdateStep::<H>::Reply(
                Err(PresenceError::NotConnected),
            ),
            old(self)@ is Some ==> step is Send && *step->Send_0 == old(self)@->0.handle,
            old(self)@ is Some ==> final(self)@ == Some(
                Session { handle: *final(step->Send_0), started_at: old(self)@->0.started_at },
            ),
            old(self)@ is Some ==> exists|party_id: Seq<char>|
                is_fresh_party_id(party_id) && step->Send_1@ == #[trigger] payload_for(
                    config@,
                    session_start_of(old(self)@),
                    party_id,
                ),
    {
        match &mut self.session {
            Some(session) => {
                let payload = build(config, Some(session.started_at));
                UpdateStep::Send(&mut session.handle, payload)
            },
            None => UpdateStep::Reply(Err(PresenceError::NotConnected)),
        }
    }
}

impl<H> Default for ConnectionState<H> {
    /// The state at process start: disconnected.
    fn default() -> (state: Self)
        ensures
            state@ is None,
    {
        ConnectionState::new()
    }
}

/// Takes the result of closing a handle that `begin_disconnect` handed out.
pub fn finish_disconnect(outcome: Result<(), String>) -> (reply: Result<Message, PresenceError>)
    ensures
        reply == reply_after_close(outcome),
{
    match outcome {
        Ok(_) => Ok(Message::Disconnected),
        Err(cause) => Err(PresenceError::Disconnect(cause)),
    }
}

/// Takes the result of sending a payload that `begin_update` built.
pub fn finish_update(outcome: Result<(), String>) -> (reply: Result<Message, PresenceError>)
    ensures
        reply == reply_after_send(outcome),
{
    match outcome {
        Ok(_) => Ok(Message::ActivityUpdated),
        Err(cause) => Err(PresenceError::Update(cause)),
    }
}

/// Answers a status query. `None` stands for a state that could not be locked,
/// which counts as not connected.
pub fn get_connection_status<H>(state: Option<&ConnectionState<H>>) -> (connected: bool)
    ensures
        connected == (state matches Some(held) && status_of(held@)),
{
    match state {
        Some(held) => held.status(),
        None => false,
    }
}

} // verus!
