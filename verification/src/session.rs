//! The session of one client with the relay, as a state machine.
//!
//! The session never touches the channel, the operator or the operating
//! system. It is told what happened as an [`Event`] and answers with the
//! [`Command`]s to carry out, in order. Whoever drives it performs one command
//! after the other and reports what came of them as further events; while the
//! operator is asked for a decision, nothing is read from the channel.

use vstd::prelude::*;
use crate::codec::{decode, decoded};
use crate::error::{ClientError, ClientErrorView, Direction, ProtocolFault};
use crate::message::{copy_ports, text_view, ClientRole, Message, MessageView};
use crate::text::{decimal, decimal_text};
use crate::tunnel::{
    ssh_command, TunnelCommand, TunnelCommandView, TunnelGrant, TunnelGrantView, TunnelManager,
    TunnelSettings, TunnelSettingsView,
};

verus! {

/// Who the client is: a stable identifier and the text of its public key.
#[derive(Clone, Debug, PartialEq, Eq)]
pub struct ClientIdentity {
    pub id: String,
    pub public_key: String,
}

/// `ClientIdentity` as a mathematical value.
pub struct ClientIdentityView {
    pub id: Seq<char>,
    pub public_key: Seq<char>,
}

impl View for ClientIdentity {
    type V = ClientIdentityView;

    open spec fn view(&self) -> ClientIdentityView {
        ClientIdentityView { id: self.id@, public_key: self.public_key@ }
    }
}

/// What a sender lets the relay decide on its behalf.
#[derive(Clone, Debug, PartialEq, Eq)]
pub struct RegistrationPolicy {
    pub auto_accept: bool,
    pub port_whitelist: Vec<u16>,
    pub port_blacklist: Vec<u16>,
}

/// `RegistrationPolicy` as a mathematical value.
pub struct RegistrationPolicyView {
    pub auto_accept: bool,
    pub port_whitelist: Seq<u16>,
    pub port_blacklist: Seq<u16>,
}

impl View for RegistrationPolicy {
    type V = RegistrationPolicyView;

    open spec fn view(&self) -> RegistrationPolicyView {
        RegistrationPolicyView {
            auto_accept: self.auto_accept,
            port_whitelist: self.port_whitelist@,
            port_blacklist: self.port_blacklist@,
        }
    }
}

/// What a receiver asks for: a port of the sender `target`.
#[derive(Clone, Debug, PartialEq, Eq)]
pub struct ConnectRequest {
    pub target: String,
    pub port: u16,
}

/// `ConnectRequest` as a mathematical value.
pub struct ConnectRequestView {
    pub target: Seq<char>,
    pub port: u16,
}

impl View for ConnectRequest {
    type V = ConnectRequestView;

    open spec fn view(&self) -> ConnectRequestView {
        ConnectRequestView { target: self.target@, port: self.port }
    }
}

/// What the client is run for. It fixes the role for the life of the process.
#[derive(Clone, Debug, PartialEq, Eq)]
pub enum Intent {
    /// Expose local ports, under a policy.
    Host(RegistrationPolicy),
    /// Reach a port that a sender exposes.
    Connect(ConnectRequest),
}

/// `Intent` as a mathematical value.
pub enum IntentView {
    Host(RegistrationPolicyView),
    Connect(ConnectRequestView),
}

impl View for Intent {
    type V = IntentView;

    open spec fn view(&self) -> IntentView {
        match *self {
            Intent::Host(policy) => IntentView::Host(policy@),
            Intent::Connect(request) => IntentView::Connect(request@),
        }
    }
}

/// Everything that is fixed when the process starts.
#[derive(Clone, Debug, PartialEq, Eq)]
pub struct Settings {
    pub identity: ClientIdentity,
    pub intent: Intent,
    pub tunnel: TunnelSettings,
}

/// `Settings` as a mathematical value.
pub struct SettingsView {
    pub identity: ClientIdentityView,
    pub intent: IntentView,
    pub tunnel: TunnelSettingsView,
}

impl View for Settings {
    type V = SettingsView;

    open spec fn view(&self) -> SettingsView {
        SettingsView { identity: self.identity@, intent: self.intent@, tunnel: self.tunnel@ }
    }
}

impl SettingsView {
    /// A host is a sender, a connecting client a receiver.
    pub open spec fn role(self) -> ClientRole {
        match self.intent {
            IntentView::Host(_) => ClientRole::Sender,
            IntentView::Connect(_) => ClientRole::Receiver,
        }
    }

    /// Whether requests are accepted without asking the operator. Only a
    /// sender can have it so.
    pub open spec fn auto_accept(self) -> bool {
        match self.intent {
            IntentView::Host(policy) => policy.auto_accept,
            IntentView::Connect(_) => false,
        }
    }

    /// The message that registers the client: its identity, its role and its
    /// policy. A receiver registers with empty lists and without auto-accept.
    pub open spec fn registration(self) -> MessageView {
        match self.intent {
            IntentView::Host(policy) => MessageView::Register {
                ssh_key: self.identity.public_key,
                uuid: self.identity.id,
                auto_accept: policy.auto_accept,
                port_whitelist: policy.port_whitelist,
                port_blacklist: policy.port_blacklist,
                client_type: ClientRole::Sender,
            },
            IntentView::Connect(_) => MessageView::Register {
                ssh_key: self.identity.public_key,
                uuid: self.identity.id,
                auto_accept: false,
                port_whitelist: Seq::empty(),
                port_blacklist: Seq::empty(),
                client_type: ClientRole::Receiver,
            },
        }
    }

    /// The phase in which a registered client waits for the relay: a sender
    /// for events, a receiver for the answer to its request.
    pub open spec fn waiting(self) -> Phase {
        match self.intent {
            IntentView::Host(_) => Phase::AwaitingEvent,
            IntentView::Connect(_) => Phase::RequestSent,
        }
    }
}

/// Where a session stands.
#[derive(Clone, Copy, Debug, PartialEq, Eq, Structural)]
pub enum Phase {
    /// The channel is not used yet.
    Fresh,
    /// The registration is sent and not yet answered.
    Registering,
    /// A registered sender waits for what the relay brings.
    AwaitingEvent,
    /// A sender waits for the operator to accept or decline a request.
    Confirming,
    /// A registered receiver has sent its request.
    RequestSent,
    /// The forwarding process is held.
    TunnelActive,
    /// Over: the tunnel was closed in good order.
    Closed,
    /// Over: the request was declined.
    Denied,
    /// Over: an error ended the session.
    Failed,
}

impl Phase {
    /// Whether the session is over.
    pub open spec fn is_terminal(self) -> bool {
        self is Closed || self is Denied || self is Failed
    }

    /// Whether the relay has accepted the registration and the session goes
    /// on.
    pub open spec fn is_negotiating(self) -> bool {
        self is AwaitingEvent || self is Confirming || self is RequestSent || self is TunnelActive
    }

    /// Tells whether the session is over.
    pub fn terminal(&self) -> (r: bool)
        ensures
            r == self.is_terminal(),
    {
        match self {
            Phase::Closed | Phase::Denied | Phase::Failed => true,
            _ => false,
        }
    }
}

/// What happened outside the session.
#[derive(Clone, Debug, PartialEq, Eq)]
pub enum Event {
    /// The channel to the relay is established.
    Connected,
    /// The relay sent this message.
    Received(Message),
    /// The relay sent a frame that is no message.
    Unreadable,
    /// A message could not be sent.
    SendFailed,
    /// The channel broke while the client waited for a message.
    ReceiveFailed,
    /// The operator accepted (`true`) or declined the request.
    Decision(bool),
    /// The forwarding process could not be started.
    SpawnFailed,
    /// The forwarding process has ended by itself.
    TunnelExited,
}

/// `Event` as a mathematical value.
pub enum EventView {
    Connected,
    Received(MessageView),
    Unreadable,
    SendFailed,
    ReceiveFailed,
    Decision(bool),
    SpawnFailed,
    TunnelExited,
}

impl View for Event {
    type V = EventView;

    open spec fn view(&self) -> EventView {
        match *self {
            Event::Connected => EventView::Connected,
            Event::Received(message) => EventView::Received(message@),
            Event::Unreadable => EventView::Unreadable,
            Event::SendFailed => EventView::SendFailed,
            Event::ReceiveFailed => EventView::ReceiveFailed,
            Event::Decision(accept) => EventView::Decision(accept),
            Event::SpawnFailed => EventView::SpawnFailed,
            Event::TunnelExited => EventView::TunnelExited,
        }
    }
}

/// The event that the arrival of a frame is: the message that its text is, or
/// an unreadable frame if it is none.
pub open spec fn frame_event(text: Seq<char>) -> EventView {
    match decoded(text) {
        Ok(message) => EventView::Received(message),
        Err(_) => EventView::Unreadable,
    }
}

impl Event {
    /// The event that the arrival of a frame with this text is.
    pub fn from_frame(text: &str) -> (event: Event)
        ensures
            event@ == frame_event(text@),
    {
        match decode(text) {
            Ok(message) => Event::Received(message),
            Err(_) => Event::Unreadable,
        }
    }
}

/// What the session wants done.
#[derive(Clone, Debug, PartialEq, Eq)]
pub enum Command {
    /// Send this message to the relay.
    Send(Message),
    /// Ask the operator whether `source_client` may reach `port`, and report
    /// the answer as a `Decision`. Nothing is read from the channel meanwhile.
    Confirm { source_client: String, port: u16 },
    /// Start the forwarding process with this command.
    StartTunnel(TunnelCommand),
    /// Terminate the forwarding process, if there is one.
    StopTunnel,
    /// Tell the operator of an error that does not end the session.
    Report(ClientError),
    /// Tell the operator of the error and exit with a status other than zero.
    Fail(ClientError),
    /// Exit with status zero.
    Finish,
}

/// `Command` as a mathematical value.
pub enum CommandView {
    Send(MessageView),
    Confirm { source_client: Seq<char>, port: u16 },
    StartTunnel(TunnelCommandView),
    StopTunnel,
    Report(ClientErrorView),
    Fail(ClientErrorView),
    Finish,
}

impl View for Command {
    type V = CommandView;

    open spec fn view(&self) -> CommandView {
        match *self {
            Command::Send(message) => CommandView::Send(message@),
            Command::Confirm { source_client, port } => CommandView::Confirm {
                source_client: source_client@,
                port,
            },
            Command::StartTunnel(command) => CommandView::StartTunnel(command@),
            Command::StopTunnel => CommandView::StopTunnel,
            Command::Report(error) => CommandView::Report(error@),
            Command::Fail(error) => CommandView::Fail(error@),
            Command::Finish => CommandView::Finish,
        }
    }
}

impl CommandView {
    /// Whether the command is a step of the negotiation: a negotiation
    /// message to send, a question to the operator, or the start of the
    /// tunnel.
    pub open spec fn is_negotiation(self) -> bool {
        match self {
            CommandView::Send(message) => message.is_negotiation(),
            CommandView::Confirm { .. } => true,
            CommandView::StartTunnel(_) => true,
            _ => false,
        }
    }
}

/// The question put to the operator when `source_client` asks for `port`.
pub open spec fn confirm_question(source_client: Seq<char>, port: u16) -> Seq<char> {
    "Client "@ + source_client + " wants to connect to port "@ + decimal(port as nat)
}

/// Writes the question put to the operator when `source_client` asks for
/// `port`.
pub fn confirm_prompt(source_client: &str, port: u16) -> (question: String)
    ensures
        question@ == confirm_question(source_client@, port),
{
    let mut question = "Client ".to_string();
    question.append(source_client);
    question.append(" wants to connect to port ");
    question.append(decimal_text(port).as_str());
    question
}

impl Command {
    /// The status with which the process exits on this command, if it does:
    /// zero after a tunnel was closed in good order, one after an error.
    pub fn exit_status(&self) -> (status: Option<u8>)
        ensures
            status == match self@ {
                CommandView::Finish => Some(0u8),
                CommandView::Fail(_) => Some(1u8),
                _ => None,
            },
    {
        match self {
            Command::Finish => Some(0),
            Command::Fail(_) => Some(1),
            _ => None,
        }
    }
}

/// The views of a list of commands.
pub open spec fn command_views(commands: Seq<Command>) -> Seq<CommandView> {
    commands.map_values(|c: Command| c@)
}

/// How a session reacts to an event: the phase it moves to and the commands
/// it gives, in order.
pub struct Reaction {
    pub phase: Phase,
    pub commands: Seq<CommandView>,
}

/// The reaction that changes nothing and asks for nothing.
pub open spec fn stay(phase: Phase) -> Reaction {
    Reaction { phase, commands: Seq::empty() }
}

/// The reaction to a fatal error: the forwarding process is terminated if one
/// is held, then the error ends the process.
pub open spec fn abort(phase: Phase, error: ClientErrorView) -> Reaction {
    Reaction {
        phase: Phase::Failed,
        commands: if phase is TunnelActive {
            seq![CommandView::StopTunnel, CommandView::Fail(error)]
        } else {
            seq![CommandView::Fail(error)]
        },
    }
}

/// The grant that a `TunnelConnect` message carries.
pub open spec fn grant_of(
    client_type: ClientRole,
    user: Seq<char>,
    sshd_port: u16,
    local_port: u16,
    forwarded_port: u16,
) -> TunnelGrantView {
    TunnelGrantView { role: client_type, ssh_user: user, sshd_port, local_port, forwarded_port }
}

/// The reaction to the answer that the relay gives to the registration.
/// Only a `Response` will do. A successful one lets a sender wait for events
/// and a receiver send its request; a failed one ends the session with the
/// relay's reason.
pub open spec fn on_registration_answer(settings: SettingsView, message: MessageView) -> Reaction {
    match message {
        MessageView::Response { success, error } => if success {
            match settings.intent {
                IntentView::Host(_) => stay(Phase::AwaitingEvent),
                IntentView::Connect(request) => Reaction {
                    phase: Phase::RequestSent,
                    commands: seq![
                        CommandView::Send(
                            MessageView::ConnectToHost { target: request.target, port: request.port },
                        ),
                    ],
                },
            }
        } else {
            abort(
                Phase::Registering,
                ClientErrorView::Registration(
                    match error {
                        Some(reason) => reason,
                        None => Seq::empty(),
                    },
                ),
            )
        },
        _ => abort(Phase::Registering, ClientErrorView::Protocol(ProtocolFault::NotAResponse)),
    }
}

/// The reaction of a registered client to a message of the relay.
///
/// - `TunnelClose` ends the session in good order if the forwarding process
///   is held, and changes nothing otherwise.
/// - `TunnelConnect` for the other role is fatal, whatever the phase. For the
///   client's own role it starts the tunnel if the client waits for the
///   relay; in any other phase it cannot occur and is fatal.
/// - `ConnectConfirm` reaches a sender that waits for events: with
///   auto-accept the request is accepted at once, otherwise the operator is
///   asked.
/// - A failed `Response` declines the request of a receiver that waits for
///   the answer. Any other `Response` is ignored.
/// - The messages that only a client sends (`Register`, `ConnectToHost`,
///   `ConnectAccept`, `ConnectDeny`) mean nothing to a client and are ignored.
pub open spec fn on_negotiation_message(settings: SettingsView, phase: Phase, message: MessageView)
    -> Reaction {
    match message {
        MessageView::TunnelClose => if phase is TunnelActive {
            Reaction {
                phase: Phase::Closed,
                commands: seq![CommandView::StopTunnel, CommandView::Finish],
            }
        } else {
            stay(phase)
        },
        MessageView::TunnelConnect { client_type, user, sshd_port, local_port, forwarded_port } => {
            if client_type != settings.role() {
                abort(phase, ClientErrorView::Protocol(ProtocolFault::RoleMismatch))
            } else if phase == settings.waiting() {
                Reaction {
                    phase: Phase::TunnelActive,
                    commands: seq![
                        CommandView::StartTunnel(
                            ssh_command(
                                grant_of(client_type, user, sshd_port, local_port, forwarded_port),
                                settings.tunnel,
                            ),
                        ),
                    ],
                }
            } else {
                abort(phase, ClientErrorView::Protocol(ProtocolFault::Unexpected))
            }
        },
        MessageView::ConnectConfirm { source_client, port } => if phase is AwaitingEvent {
            if settings.auto_accept() {
                Reaction {
                    phase: Phase::AwaitingEvent,
                    commands: seq![CommandView::Send(MessageView::ConnectAccept)],
                }
            } else {
                Reaction {
                    phase: Phase::Confirming,
                    commands: seq![CommandView::Confirm { source_client, port }],
                }
            }
        } else {
            stay(phase)
        },
        MessageView::Response { success, error } => match settings.intent {
            IntentView::Connect(request) => if phase is RequestSent && !success {
                Reaction {
                    phase: Phase::Denied,
                    commands: seq![
                        CommandView::Fail(
                            ClientErrorView::Denial {
                                target: request.target,
                                reason: match error {
                                    Some(reason) => reason,
                                    None => Seq::empty(),
                                },
                            },
                        ),
                    ],
                }
            } else {
                stay(phase)
            },
            IntentView::Host(_) => stay(phase),
        },
        MessageView::Register { .. } => stay(phase),
        MessageView::ConnectToHost { .. } => stay(phase),
        MessageView::ConnectAccept => stay(phase),
        MessageView::ConnectDeny => stay(phase),
    }
}

/// The reaction to a message of the relay. Before the registration is sent
/// no message can occur; until it is answered only the answer counts.
pub open spec fn on_message(settings: SettingsView, phase: Phase, message: MessageView)
    -> Reaction {
    match phase {
        Phase::Fresh => abort(phase, ClientErrorView::Protocol(ProtocolFault::Unexpected)),
        Phase::Registering => on_registration_answer(settings, message),
        _ => on_negotiation_message(settings, phase, message),
    }
}

/// The reaction of a session in `phase` to `event`.
///
/// A session that is over reacts to nothing. Otherwise a broken channel and
/// an unreadable frame are fatal in every phase; the other events count in
/// the phase they belong to and are ignored elsewhere. A forwarding process
/// that fails to start or ends by itself is let go of, and the client waits
/// for the relay again.
pub open spec fn react(settings: SettingsView, phase: Phase, event: EventView) -> Reaction {
    if phase.is_terminal() {
        stay(phase)
    } else {
        match event {
            EventView::Connected => if phase is Fresh {
                Reaction {
                    phase: Phase::Registering,
                    commands: seq![CommandView::Send(settings.registration())],
                }
            } else {
                stay(phase)
            },
            EventView::Received(message) => on_message(settings, phase, message),
            EventView::Unreadable => abort(
                phase,
                ClientErrorView::Protocol(ProtocolFault::Unreadable),
            ),
            EventView::SendFailed => abort(phase, ClientErrorView::Transport(Direction::Sending)),
            EventView::ReceiveFailed => abort(
                phase,
                ClientErrorView::Transport(Direction::Receiving),
            ),
            EventView::Decision(accept) => if phase is Confirming {
                Reaction {
                    phase: Phase::AwaitingEvent,
                    commands: seq![
                        CommandView::Send(
                            if accept {
                                MessageView::ConnectAccept
                            } else {
                                MessageView::ConnectDeny
                            },
                        ),
                    ],
                }
            } else {
                stay(phase)
            },
            EventView::SpawnFailed => if phase is TunnelActive {
                Reaction {
                    phase: settings.waiting(),
                    commands: seq![
                        CommandView::StopTunnel,
                        CommandView::Report(ClientErrorView::Spawn),
                    ],
                }
            } else {
                stay(phase)
            },
            EventView::TunnelExited => if phase is TunnelActive {
                Reaction { phase: settings.waiting(), commands: seq![CommandView::StopTunnel] }
            } else {
                stay(phase)
            },
        }
    }
}

impl Settings {
    /// The role that the intent fixes.
    pub fn role(&self) -> (role: ClientRole)
        ensures
            role == self@.role(),
    {
        match &self.intent {
            Intent::Host(_) => ClientRole::Sender,
            Intent::Connect(_) => ClientRole::Receiver,
        }
    }

    /// Tells whether requests are accepted without asking the operator.
    pub fn auto_accept(&self) -> (r: bool)
        ensures
            r == self@.auto_accept(),
    {
        match &self.intent {
            Intent::Host(policy) => policy.auto_accept,
            Intent::Connect(_) => false,
        }
    }

    /// The message that registers the client.
    pub fn registration(&self) -> (message: Message)
        ensures
            message@ == self@.registration(),
    {
        match &self.intent {
            Intent::Host(policy) => Message::Register {
                ssh_key: self.identity.public_key.clone(),
                uuid: self.identity.id.clone(),
                auto_accept: policy.auto_accept,
                port_whitelist: copy_ports(&policy.port_whitelist),
                port_blacklist: copy_ports(&policy.port_blacklist),
                client_type: ClientRole::Sender,
            },
            Intent::Connect(_) => Message::Register {
                ssh_key: self.identity.public_key.clone(),
                uuid: self.identity.id.clone(),
                auto_accept: false,
                port_whitelist: Vec::new(),
                port_blacklist: Vec::new(),
                client_type: ClientRole::Receiver,
            },
        }
    }

    /// The phase in which the client, once registered, waits for the relay.
    pub fn waiting(&self) -> (phase: Phase)
        ensures
            phase == self@.waiting(),
    {
        match &self.intent {
            Intent::Host(_) => Phase::AwaitingEvent,
            Intent::Connect(_) => Phase::RequestSent,
        }
    }
}

/// A list of one command.
fn one(command: Command) -> (commands: Vec<Command>)
    ensures
        command_views(commands@) == seq![command@],
{
    let mut commands: Vec<Command> = Vec::new();
    commands.push(command);
    commands
}

/// A list of two commands.
fn two(first: Command, second: Command) -> (commands: Vec<Command>)
    ensures
        command_views(commands@) == seq![first@, second@],
{
    let mut commands: Vec<Command> = Vec::new();
    commands.push(first);
    commands.push(second);
    commands
}

/// No command.
fn none() -> (commands: Vec<Command>)
    ensures
        command_views(commands@) == Seq::<CommandView>::empty(),
{
    let commands: Vec<Command> = Vec::new();
    commands
}

/// The text of an optional reason; none is the empty text.
fn reason_text(reason: Option<String>) -> (text: String)
    ensures
        text@ == match text_view(reason) {
            Some(r) => r,
            None => Seq::empty(),
        },
{
    match reason {
        Some(r) => r,
        None => String::new(),
    }
}

/// The session of one client: its settings, the phase it is in, and the
/// record of the forwarding process.
#[derive(Debug)]
pub struct Session {
    settings: Settings,
    phase: Phase,
    tunnel: TunnelManager,
}

/// A session as a mathematical value. The record of the forwarding process
/// adds nothing to it: a process is held exactly in the phase `TunnelActive`.
pub struct SessionView {
    pub settings: SettingsView,
    pub phase: Phase,
}

impl View for Session {
    type V = SessionView;

    closed spec fn view(&self) -> SessionView {
        SessionView { settings: self.settings@, phase: self.phase }
    }
}

impl Session {
    /// The forwarding process is held exactly in the phase `TunnelActive`.
    pub closed spec fn well_formed(&self) -> bool {
        self.tunnel.is_active() == (self.phase is TunnelActive)
    }

    /// A session that has not used the channel yet.
    pub fn new(settings: Settings) -> (session: Session)
        ensures
            session.well_formed(),
            session@ == (SessionView { settings: settings@, phase: Phase::Fresh }),
    {
        Session { settings, phase: Phase::Fresh, tunnel: TunnelManager::new() }
    }

    /// The phase the session is in.
    pub fn phase(&self) -> (phase: Phase)
        ensures
            phase == self@.phase,
    {
        self.phase
    }

    /// The settings the session was made with.
    pub fn settings(&self) -> (settings: &Settings)
        ensures
            settings@ == self@.settings,
    {
        &self.settings
    }

    /// Tells whether the forwarding process is held.
    pub fn tunnel_active(&self) -> (r: bool)
        requires
            self.well_formed(),
        ensures
            r == (self@.phase is TunnelActive),
    {
        self.tunnel.active()
    }

    /// Ends the session on a fatal error.
    fn abort(&mut self, error: ClientError) -> (commands: Vec<Command>)
        requires
            old(self).well_formed(),
        ensures
            final(self).well_formed(),
            final(self)@.settings == old(self)@.settings,
            final(self)@.phase == abort(old(self)@.phase, error@).phase,
            command_views(commands@) == abort(old(self)@.phase, error@).commands,
    {
        let was_active = self.tunnel.stop();
        self.phase = Phase::Failed;
        if was_active {
            two(Command::StopTunnel, Command::Fail(error))
        } else {
            one(Command::Fail(error))
        }
    }

    /// Takes the relay's answer to the registration.
    fn registration_answer(&mut self, message: Message) -> (commands: Vec<Command>)
        requires
            old(self).well_formed(),
            old(self)@.phase is Registering,
        ensures
            final(self).well_formed(),
            final(self)@.settings == old(self)@.settings,
            final(self)@.phase == on_registration_answer(old(self)@.settings, message@).phase,
            command_views(commands@) == on_registration_answer(
                old(self)@.settings,
                message@,
            ).commands,
    {
        match message {
            Message::Response { success, error } => {
                if success {
                    match &self.settings.intent {
                        Intent::Host(_) => {
                            self.phase = Phase::AwaitingEvent;
                            none()
                        },
                        Intent::Connect(request) => {
                            let ask = Message::ConnectToHost {
                                target: request.target.clone(),
                                port: request.port,
                            };
                            self.phase = Phase::RequestSent;
                            one(Command::Send(ask))
                        },
                    }
                } else {
                    self.abort(ClientError::Registration(reason_text(error)))
                }
            },
            _ => self.abort(ClientError::Protocol(ProtocolFault::NotAResponse)),
        }
    }

    /// Takes a message of the relay once the client is registered.
    fn negotiation_message(&mut self, message: Message) -> (commands: Vec<Command>)
        requires
            old(self).well_formed(),
            old(self)@.phase.is_negotiating(),
        ensures
            final(self).well_formed(),
            final(self)@.settings == old(self)@.settings,
            final(self)@.phase == on_negotiation_message(
                old(self)@.settings,
                old(self)@.phase,
                message@,
            ).phase,
            command_views(commands@) == on_negotiation_message(
                old(self)@.settings,
                old(self)@.phase,
                message@,
            ).commands,
    {
        match message {
            Message::TunnelClose => {
                if self.tunnel.stop() {
                    self.phase = Phase::Closed;
                    two(Command::StopTunnel, Command::Finish)
                } else {
                    none()
                }
            },
            Message::TunnelConnect { client_type, user, sshd_port, local_port, forwarded_port } => {
                if client_type != self.settings.role() {
                    self.abort(ClientError::Protocol(ProtocolFault::RoleMismatch))
                } else if self.phase == self.settings.waiting() {
                    let grant = TunnelGrant {
                        role: client_type,
                        ssh_user: user,
                        sshd_port,
                        local_port,
                        forwarded_port,
                    };
                    let command = self.tunnel.start(&grant, &self.settings.tunnel);
                    self.phase = Phase::TunnelActive;
                    one(Command::StartTunnel(command))
                } else {
                    self.abort(ClientError::Protocol(ProtocolFault::Unexpected))
                }
            },
            Message::ConnectConfirm { source_client, port } => {
                if self.phase == Phase::AwaitingEvent {
                    if self.settings.auto_accept() {
                        one(Command::Send(Message::ConnectAccept))
                    } else {
                        self.phase = Phase::Confirming;
                        one(Command::Confirm { source_client, port })
                    }
                } else {
                    none()
                }
            },
            Message::Response { success, error } => {
                match &self.settings.intent {
                    Intent::Connect(request) => {
                        if self.phase == Phase::RequestSent && !success {
                            let denial = ClientError::Denial {
                                target: request.target.clone(),
                                reason: reason_text(error),
                            };
                            self.phase = Phase::Denied;
                            one(Command::Fail(denial))
                        } else {
                            none()
                        }
                    },
                    Intent::Host(_) => none(),
                }
            },
            Message::Register { .. } => none(),
            Message::ConnectToHost { .. } => none(),
            Message::ConnectAccept => none(),
            Message::ConnectDeny => none(),
        }
    }

    /// Takes an event and answers with the commands to carry out, in order.
    /// What the session does is `react` of its settings, its phase and the
    /// event; the settings never change.
    pub fn step(&mut self, event: Event) -> (commands: Vec<Command>)
        requires
            old(self).well_formed(),
        ensures
            final(self).well_formed(),
            final(self)@.settings == old(self)@.settings,
            final(self)@.phase == react(old(self)@.settings, old(self)@.phase, event@).phase,
            command_views(commands@) == react(
                old(self)@.settings,
                old(self)@.phase,
                event@,
            ).commands,
    {
        if self.phase.terminal() {
            return none();
        }
        match event {
            Event::Connected => {
                if self.phase == Phase::Fresh {
                    let register = self.settings.registration();
                    self.phase = Phase::Registering;
                    one(Command::Send(register))
                } else {
                    none()
                }
            },
            Event::Received(message) => {
                match self.phase {
                    Phase::Fresh => self.abort(ClientError::Protocol(ProtocolFault::Unexpected)),
                    Phase::Registering => self.registration_answer(message),
                    _ => self.negotiation_message(message),
                }
            },
            Event::Unreadable => self.abort(ClientError::Protocol(ProtocolFault::Unreadable)),
            Event::SendFailed => self.abort(ClientError::Transport(Direction::Sending)),
            Event::ReceiveFailed => self.abort(ClientError::Transport(Direction::Receiving)),
            Event::Decision(accept) => {
                if self.phase == Phase::Confirming {
                    self.phase = Phase::AwaitingEvent;
                    if accept {
                        one(Command::Send(Message::ConnectAccept))
                    } else {
                        one(Command::Send(Message::ConnectDeny))
                    }
                } else {
                    none()
                }
            },
            Event::SpawnFailed => {
                if self.phase == Phase::TunnelActive {
                    self.tunnel.stop();
                    self.phase = self.settings.waiting();
                    two(Command::StopTunnel, Command::Report(ClientError::Spawn))
                } else {
                    none()
                }
            },
            Event::TunnelExited => {
                if self.phase == Phase::TunnelActive {
                    self.tunnel.stop();
                    self.phase = self.settings.waiting();
                    one(Command::StopTunnel)
                } else {
                    none()
                }
            },
        }
    }
}

} // verus!
