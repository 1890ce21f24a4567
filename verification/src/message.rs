//! The messages that a client and the relay exchange.

use vstd::prelude::*;

verus! {

/// Which side of a forward a client plays. A sender exposes a local port; a
/// receiver wants to reach a port that a sender exposes.
#[derive(Clone, Copy, Debug, PartialEq, Eq, Structural)]
pub enum ClientRole {
    Sender,
    Receiver,
}

/// One message of the protocol.
#[derive(Clone, Debug, PartialEq, Eq)]
pub enum Message {
    /// Client to relay: binds an identity, a role and a policy to the channel.
    Register {
        ssh_key: String,
        uuid: String,
        auto_accept: bool,
        port_whitelist: Vec<u16>,
        port_blacklist: Vec<u16>,
        client_type: ClientRole,
    },
    /// Receiver to relay: asks for a port of the sender `target`.
    ConnectToHost { target: String, port: u16 },
    /// Relay to sender: `source_client` asks for `port`.
    ConnectConfirm { source_client: String, port: u16 },
    /// Sender to relay: the request is accepted.
    ConnectAccept,
    /// Sender to relay: the request is declined.
    ConnectDeny,
    /// Relay to both sides: the tunnel is granted.
    TunnelConnect {
        client_type: ClientRole,
        user: String,
        sshd_port: u16,
        local_port: u16,
        forwarded_port: u16,
    },
    /// Relay to both sides: the tunnel is over.
    TunnelClose,
    /// Relay to client: the outcome of a request.
    Response { success: bool, error: Option<String> },
}

/// A message as a mathematical value: strings as sequences of characters,
/// port lists as sequences of ports.
pub enum MessageView {
    Register {
        ssh_key: Seq<char>,
        uuid: Seq<char>,
        auto_accept: bool,
        port_whitelist: Seq<u16>,
        port_blacklist: Seq<u16>,
        client_type: ClientRole,
    },
    ConnectToHost { target: Seq<char>, port: u16 },
    ConnectConfirm { source_client: Seq<char>, port: u16 },
    ConnectAccept,
    ConnectDeny,
    TunnelConnect {
        client_type: ClientRole,
        user: Seq<char>,
        sshd_port: u16,
        local_port: u16,
        forwarded_port: u16,
    },
    TunnelClose,
    Response { success: bool, error: Option<Seq<char>> },
}

/// The view of an optional string.
pub open spec fn text_view(text: Option<String>) -> Option<Seq<char>> {
    match text {
        Some(t) => Some(t@),
        None => None,
    }
}

impl View for Message {
    type V = MessageView;

    open spec fn view(&self) -> MessageView {
        match *self {
            Message::Register {
                ssh_key,
                uuid,
                auto_accept,
                port_whitelist,
                port_blacklist,
                client_type,
            } => MessageView::Register {
                ssh_key: ssh_key@,
                uuid: uuid@,
                auto_accept,
                port_whitelist: port_whitelist@,
                port_blacklist: port_blacklist@,
                client_type,
            },
            Message::ConnectToHost { target, port } => MessageView::ConnectToHost {
                target: target@,
                port,
            },
            Message::ConnectConfirm { source_client, port } => MessageView::ConnectConfirm {
                source_client: source_client@,
                port,
            },
            Message::ConnectAccept => MessageView::ConnectAccept,
            Message::ConnectDeny => MessageView::ConnectDeny,
            Message::TunnelConnect {
                client_type,
                user,
                sshd_port,
                local_port,
                forwarded_port,
            } => MessageView::TunnelConnect {
                client_type,
                user: user@,
                sshd_port,
                local_port,
                forwarded_port,
            },
            Message::TunnelClose => MessageView::TunnelClose,
            Message::Response { success, error } => MessageView::Response {
                success,
                error: text_view(error),
            },
        }
    }
}

impl MessageView {
    /// Whether the message belongs to the negotiation of a tunnel, which
    /// starts only once the relay has accepted the registration.
    pub open spec fn is_negotiation(self) -> bool {
        !(self is Register) && !(self is Response)
    }
}

/// A copy of a list of ports.
pub fn copy_ports(ports: &Vec<u16>) -> (r: Vec<u16>)
    ensures
        r@ == ports@,
{
    let mut r: Vec<u16> = Vec::new();
    let mut i: usize = 0;
    while i < ports.len()
        invariant
            i <= ports.len(),
            r@ == ports@.take(i as int),
        decreases ports.len() - i,
    {
        r.push(ports[i]);
        i += 1;
    }
    r
}

/// Tells whether two lists hold the same ports in the same order.
pub fn same_ports(first: &Vec<u16>, second: &Vec<u16>) -> (r: bool)
    ensures
        r == (first@ == second@),
{
    if first.len() != second.len() {
        return false;
    }
    let mut i: usize = 0;
    while i < first.len()
        invariant
            i <= first.len(),
            first.len() == second.len(),
            forall|k: int| 0 <= k < i ==> first@[k] == second@[k],
        decreases first.len() - i,
    {
        if first[i] != second[i] {
            return false;
        }
        i += 1;
    }
    assert(first@ =~= second@);
    true
}

/// Tells whether two optional strings are the same.
pub fn same_optional_text(first: &Option<String>, second: &Option<String>) -> (r: bool)
    ensures
        r == (text_view(*first) == text_view(*second)),
{
    match (first, second) {
        (Some(a), Some(b)) => *a == *b,
        (None, None) => true,
        _ => false,
    }
}

impl Message {
    /// Tells whether two messages are the same: the same variant with the
    /// same fields.
    pub fn same_as(&self, other: &Message) -> (r: bool)
        ensures
            r == (self@ == other@),
    {
        match (self, other) {
            (
                Message::Register {
                    ssh_key,
                    uuid,
                    auto_accept,
                    port_whitelist,
                    port_blacklist,
                    client_type,
                },
                Message::Register {
                    ssh_key: other_ssh_key,
                    uuid: other_uuid,
                    auto_accept: other_auto_accept,
                    port_whitelist: other_port_whitelist,
                    port_blacklist: other_port_blacklist,
                    client_type: other_client_type,
                },
            ) => {
                *ssh_key == *other_ssh_key && *uuid == *other_uuid && *auto_accept
                    == *other_auto_accept && same_ports(port_whitelist, other_port_whitelist)
                    && same_ports(port_blacklist, other_port_blacklist) && *client_type
                    == *other_client_type
            },
            (
                Message::ConnectToHost { target, port },
                Message::ConnectToHost { target: other_target, port: other_port },
            ) => *target == *other_target && *port == *other_port,
            (
                Message::ConnectConfirm { source_client, port },
                Message::ConnectConfirm { source_client: other_source_client, port: other_port },
            ) => *source_client == *other_source_client && *port == *other_port,
            (Message::ConnectAccept, Message::ConnectAccept) => true,
            (Message::ConnectDeny, Message::ConnectDeny) => true,
            (
                Message::TunnelConnect { client_type, user, sshd_port, local_port, forwarded_port },
                Message::TunnelConnect {
                    client_type: other_client_type,
                    user: other_user,
                    sshd_port: other_sshd_port,
                    local_port: other_local_port,
                    forwarded_port: other_forwarded_port,
                },
            ) => {
                *client_type == *other_client_type && *user == *other_user && *sshd_port
                    == *other_sshd_port && *local_port == *other_local_port && *forwarded_port
                    == *other_forwarded_port
            },
            (Message::TunnelClose, Message::TunnelClose) => true,
            (
                Message::Response { success, error },
                Message::Response { success: other_success, error: other_error },
            ) => *success == *other_success && same_optional_text(error, other_error),
            _ => false,
        }
    }
}

} // verus!
