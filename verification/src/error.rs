//! What can go wrong in a session, and how it is told to the operator.

use vstd::prelude::*;

verus! {

/// The half of the channel on which a transport failure showed.
#[derive(Clone, Copy, Debug, PartialEq, Eq, Structural)]
pub enum Direction {
    Sending,
    Receiving,
}

/// The ways in which the relay can break the protocol.
#[derive(Clone, Copy, Debug, PartialEq, Eq, Structural)]
pub enum ProtocolFault {
    /// A frame that is no message: malformed, or of an unknown type.
    Unreadable,
    /// The registration was answered by something other than a `Response`.
    NotAResponse,
    /// A tunnel was granted for the role that this client does not play.
    RoleMismatch,
    /// A message that cannot occur in the state the session is in.
    Unexpected,
}

/// An error of the client. All but `Spawn` end the session.
#[derive(Clone, Debug, PartialEq, Eq)]
pub enum ClientError {
    /// The channel to the relay could not be established.
    Connect(String),
    /// The channel broke after it was established.
    Transport(Direction),
    /// The relay broke the protocol.
    Protocol(ProtocolFault),
    /// The relay rejected the registration, for the reason it gave.
    Registration(String),
    /// The relay or the sender `target` declined the request.
    Denial { target: String, reason: String },
    /// The forwarding process could not be started.
    Spawn,
}

/// An error as a mathematical value.
pub enum ClientErrorView {
    Connect(Seq<char>),
    Transport(Direction),
    Protocol(ProtocolFault),
    Registration(Seq<char>),
    Denial { target: Seq<char>, reason: Seq<char> },
    Spawn,
}

impl View for ClientError {
    type V = ClientErrorView;

    open spec fn view(&self) -> ClientErrorView {
        match *self {
            ClientError::Connect(cause) => ClientErrorView::Connect(cause@),
            ClientError::Transport(direction) => ClientErrorView::Transport(direction),
            ClientError::Protocol(fault) => ClientErrorView::Protocol(fault),
            ClientError::Registration(reason) => ClientErrorView::Registration(reason@),
            ClientError::Denial { target, reason } => ClientErrorView::Denial {
                target: target@,
                reason: reason@,
            },
            ClientError::Spawn => ClientErrorView::Spawn,
        }
    }
}

impl ProtocolFault {
    /// The line shown to the operator for this fault.
    pub open spec fn description(self) -> Seq<char> {
        match self {
            ProtocolFault::Unreadable => "failed to parse message sent by server"@,
            ProtocolFault::NotAResponse => "Failed to register with server"@,
            ProtocolFault::RoleMismatch =>
                "the client type received with the tunnel connect message does not match the client, this is a bug with the server"@,
            ProtocolFault::Unexpected =>
                "the server sent a message that does not fit the state of the session"@,
        }
    }

    /// The line shown to the operator for this fault.
    pub fn describe(&self) -> (r: &'static str)
        ensures
            r@ == self.description(),
    {
        match self {
            ProtocolFault::Unreadable => "failed to parse message sent by server",
            ProtocolFault::NotAResponse => "Failed to register with server",
            ProtocolFault::RoleMismatch =>
                "the client type received with the tunnel connect message does not match the client, this is a bug with the server",
            ProtocolFault::Unexpected =>
                "the server sent a message that does not fit the state of the session",
        }
    }
}

impl ClientErrorView {
    /// The text shown to the operator: it names the step that failed and the
    /// remote party or the reason, where there is one.
    pub open spec fn description(self) -> Seq<char> {
        match self {
            ClientErrorView::Connect(cause) => "failed to connect to server \""@ + cause + "\""@,
            ClientErrorView::Transport(Direction::Sending) => "failed to send"@,
            ClientErrorView::Transport(Direction::Receiving) =>
                "an error occurred while reading from socket"@,
            ClientErrorView::Protocol(fault) => fault.description(),
            ClientErrorView::Registration(reason) => "Failed to register with server:\n"@ + reason,
            ClientErrorView::Denial { target, reason } => "error: "@ + target + ":\n"@ + reason,
            ClientErrorView::Spawn => "failed to open ssh tunnel"@,
        }
    }

    /// Whether the error ends the session. Only a failed start of the
    /// forwarding process does not.
    pub open spec fn is_fatal(self) -> bool {
        !(self is Spawn)
    }
}

impl ClientError {
    /// The text shown to the operator.
    pub fn describe(&self) -> (r: String)
        ensures
            r@ == self@.description(),
    {
        match self {
            ClientError::Connect(cause) => {
                let mut r = "failed to connect to server \"".to_string();
                r.append(cause.as_str());
                r.append("\"");
                r
            },
            ClientError::Transport(Direction::Sending) => "failed to send".to_string(),
            ClientError::Transport(Direction::Receiving) => {
                "an error occurred while reading from socket".to_string()
            },
            ClientError::Protocol(fault) => fault.describe().to_string(),
            ClientError::Registration(reason) => {
                let mut r = "Failed to register with server:\n".to_string();
                r.append(reason.as_str());
                r
            },
            ClientError::Denial { target, reason } => {
                let mut r = "error: ".to_string();
                r.append(target.as_str());
                r.append(":\n");
                r.append(reason.as_str());
                r
            },
            ClientError::Spawn => "failed to open ssh tunnel".to_string(),
        }
    }

    /// Tells whether the error ends the session.
    pub fn is_fatal(&self) -> (r: bool)
        ensures
            r == self@.is_fatal(),
    {
        match self {
            ClientError::Spawn => false,
            _ => true,
        }
    }
}

} // verus!
