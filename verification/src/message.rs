//! What an operation reports back: a message on success, an error otherwise,
//! and the exact wording of both.

use vstd::prelude::*;
use vstd::string::*;

verus! {

/// The successful outcomes. Asking for a state that already holds is a success.
#[derive(Debug, Clone, Copy, PartialEq, Eq)]
pub enum Message {
    AlreadyConnected,
    Connected,
    Disconnected,
    NotConnected,
    ActivityUpdated,
}

/// The failures. Each is reported once, to the caller of the failed operation,
/// and none is retried. The text carried is the underlying cause.
#[derive(Debug, PartialEq, Eq)]
pub enum PresenceError {
    /// The shared state could not be locked.
    Lock(String),
    /// The handshake with the presence service failed.
    Connect(String),
    /// Closing the connection failed; the state is cleared all the same.
    Disconnect(String),
    /// An update was asked for while no connection exists.
    NotConnected,
    /// The presence service did not take the update.
    Update(String),
}

impl Message {
    /// The wording of this message.
    pub open spec fn text(self) -> Seq<char> {
        match self {
            Message::AlreadyConnected => "Already connected"@,
            Message::Connected => "Connected to Discord"@,
            Message::Disconnected => "Disconnected from Discord"@,
            Message::NotConnected => "Not connected"@,
            Message::ActivityUpdated => "Activity updated"@,
        }
    }

    /// Writes this message out.
    pub fn render(&self) -> (wording: String)
        ensures
            wording@ == self.text(),
    {
        match self {
            Message::AlreadyConnected => "Already connected".to_owned(),
            Message::Connected => "Connected to Discord".to_owned(),
            Message::Disconnected => "Disconnected from Discord".to_owned(),
            Message::NotConnected => "Not connected".to_owned(),
            Message::ActivityUpdated => "Activity updated".to_owned(),
        }
    }
}

impl PresenceError {
    /// The wording of this error: what failed, then the cause. A lock failure is
    /// worded by its cause alone.
    pub open spec fn text(self) -> Seq<char> {
        match self {
            PresenceError::Lock(cause) => cause@,
            PresenceError::Connect(cause) => "Failed to connect to Discord: "@ + cause@,
            PresenceError::Disconnect(cause) => "Failed to disconnect: "@ + cause@,
            PresenceError::NotConnected => "Not connected to Discord"@,
            PresenceError::Update(cause) => "Failed to set activity: "@ + cause@,
        }
    }

    /// Writes this error out.
    pub fn render(&self) -> (wording: String)
        ensures
            wording@ == self.text(),
    {
        match self {
            PresenceError::Lock(cause) => cause.clone(),
            PresenceError::Connect(cause) => "Failed to connect to Discord: ".to_owned().concat(
                cause.as_str(),
            ),
            PresenceError::Disconnect(cause) => "Failed to disconnect: ".to_owned().concat(
                cause.as_str(),
            ),
            PresenceError::NotConnected => "Not connected to Discord".to_owned(),
            PresenceError::Update(cause) => "Failed to set activity: ".to_owned().concat(
                cause.as_str(),
            ),
        }
    }
}

/// The wording of an operation's outcome.
pub open spec fn surfaced(outcome: Result<Message, PresenceError>) -> Result<Seq<char>, Seq<char>> {
    match outcome {
        Ok(message) => Ok(message.text()),
        Err(error) => Err(error.text()),
    }
}

/// The characters of a worded outcome.
pub open spec fn wording_of(outcome: Result<String, String>) -> Result<Seq<char>, Seq<char>> {
    match outcome {
        Ok(text) => Ok(text@),
        Err(text) => Err(text@),
    }
}

/// Words an outcome for the presentation layer, which takes plain text both ways.
pub fn surface(outcome: Result<Message, PresenceError>) -> (worded: Result<String, String>)
    ensures
        wording_of(worded) == surfaced(outcome),
{
    match outcome {
        Ok(message) => Ok(message.render()),
        Err(error) => Err(error.render()),
    }
}

} // verus!
