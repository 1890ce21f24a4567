//! The forwarding process: the command that starts it, and the record of
//! whether one is running.
//!
//! The process itself belongs to the operating system. What is kept here is
//! the one fact that the rest of the client relies on: at most one forwarding
//! process is alive at any time.

use vstd::prelude::*;
use crate::message::ClientRole;
use crate::text::{decimal, decimal_text};

verus! {

/// What the relay grants once both sides are matched: where to reach its
/// ephemeral SSH server and which ports to forward.
#[derive(Clone, Debug, PartialEq, Eq)]
pub struct TunnelGrant {
    pub role: ClientRole,
    pub ssh_user: String,
    pub sshd_port: u16,
    /// The port on the relay through which the two clients meet.
    pub local_port: u16,
    /// The sender's port that is exposed. A receiver does not use it.
    pub forwarded_port: u16,
}

/// `TunnelGrant` as a mathematical value.
pub struct TunnelGrantView {
    pub role: ClientRole,
    pub ssh_user: Seq<char>,
    pub sshd_port: u16,
    pub local_port: u16,
    pub forwarded_port: u16,
}

impl View for TunnelGrant {
    type V = TunnelGrantView;

    open spec fn view(&self) -> TunnelGrantView {
        TunnelGrantView {
            role: self.role,
            ssh_user: self.ssh_user@,
            sshd_port: self.sshd_port,
            local_port: self.local_port,
            forwarded_port: self.forwarded_port,
        }
    }
}

/// What the client itself brings to a tunnel.
#[derive(Clone, Debug, PartialEq, Eq)]
pub struct TunnelSettings {
    /// Path of the private key that authenticates to the relay's SSH server.
    pub key_path: String,
    /// Host name of the relay.
    pub server_domain: String,
    /// The local port on which a receiver wants the sender's port to appear.
    /// A sender does not use it.
    pub local_port: u16,
}

/// `TunnelSettings` as a mathematical value.
pub struct TunnelSettingsView {
    pub key_path: Seq<char>,
    pub server_domain: Seq<char>,
    pub local_port: u16,
}

impl View for TunnelSettings {
    type V = TunnelSettingsView;

    open spec fn view(&self) -> TunnelSettingsView {
        TunnelSettingsView {
            key_path: self.key_path@,
            server_domain: self.server_domain@,
            local_port: self.local_port,
        }
    }
}

/// A program and its arguments.
#[derive(Clone, Debug, PartialEq, Eq)]
pub struct TunnelCommand {
    pub program: String,
    pub arguments: Vec<String>,
}

/// `TunnelCommand` as a mathematical value.
pub struct TunnelCommandView {
    pub program: Seq<char>,
    pub arguments: Seq<Seq<char>>,
}

/// The views of a list of strings.
pub open spec fn text_views(texts: Seq<String>) -> Seq<Seq<char>> {
    texts.map_values(|t: String| t@)
}

impl View for TunnelCommand {
    type V = TunnelCommandView;

    open spec fn view(&self) -> TunnelCommandView {
        TunnelCommandView { program: self.program@, arguments: text_views(self.arguments@) }
    }
}

/// The option that selects the direction of the forward: a sender forwards a
/// port of the relay to itself, a receiver forwards a port of its own to the
/// relay.
pub open spec fn forward_flag(role: ClientRole) -> Seq<char> {
    match role {
        ClientRole::Sender => "-R"@,
        ClientRole::Receiver => "-L"@,
    }
}

/// The forward itself: for a sender the relay's meeting port onto the exposed
/// port, for a receiver the wanted local port onto the relay's meeting port.
pub open spec fn forward_rule(grant: TunnelGrantView, settings: TunnelSettingsView) -> Seq<char> {
    match grant.role {
        ClientRole::Sender => decimal(grant.local_port as nat) + ":localhost:"@ + decimal(
            grant.forwarded_port as nat,
        ),
        ClientRole::Receiver => decimal(settings.local_port as nat) + ":localhost:"@ + decimal(
            grant.local_port as nat,
        ),
    }
}

/// The user and host that the forwarding process logs in to.
pub open spec fn ssh_target(grant: TunnelGrantView, settings: TunnelSettingsView) -> Seq<char> {
    grant.ssh_user + "@"@ + settings.server_domain
}

/// The command that forwards the ports of `grant`. It opens no shell, checks
/// no host key (the relay's SSH server lives as long as the tunnel does and
/// has no key known beforehand), and logs in with the client's key.
pub open spec fn ssh_command(grant: TunnelGrantView, settings: TunnelSettingsView)
    -> TunnelCommandView {
    TunnelCommandView {
        program: "ssh"@,
        arguments: seq![
            "-o"@,
            "StrictHostKeyChecking=no"@,
            "-N"@,
            "-p"@,
            decimal(grant.sshd_port as nat),
            "-i"@,
            settings.key_path,
            forward_flag(grant.role),
            forward_rule(grant, settings),
            ssh_target(grant, settings),
        ],
    }
}

/// Builds the command that forwards the ports of `grant`.
pub fn build_command(grant: &TunnelGrant, settings: &TunnelSettings) -> (command: TunnelCommand)
    ensures
        command@ == ssh_command(grant@, settings@),
{
    let (flag, near, far) = match grant.role {
        ClientRole::Sender => ("-R", grant.local_port, grant.forwarded_port),
        ClientRole::Receiver => ("-L", settings.local_port, grant.local_port),
    };
    let mut rule = decimal_text(near);
    rule.append(":localhost:");
    rule.append(decimal_text(far).as_str());
    let mut target = grant.ssh_user.clone();
    target.append("@");
    target.append(settings.server_domain.as_str());

    let mut arguments: Vec<String> = Vec::new();
    arguments.push("-o".to_string());
    arguments.push("StrictHostKeyChecking=no".to_string());
    arguments.push("-N".to_string());
    arguments.push("-p".to_string());
    arguments.push(decimal_text(grant.sshd_port));
    arguments.push("-i".to_string());
    arguments.push(settings.key_path.clone());
    arguments.push(flag.to_string());
    arguments.push(rule);
    arguments.push(target);
    let command = TunnelCommand { program: "ssh".to_string(), arguments };
    assert(command@.arguments =~= ssh_command(grant@, settings@).arguments);
    command
}

/// Keeps the record of the forwarding process: none, or one.
#[derive(Debug)]
pub struct TunnelManager {
    active: bool,
}

impl TunnelManager {
    /// Whether a forwarding process is held.
    pub closed spec fn is_active(&self) -> bool {
        self.active
    }

    /// A manager that holds no process.
    pub fn new() -> (manager: TunnelManager)
        ensures
            !manager.is_active(),
    {
        TunnelManager { active: false }
    }

    /// Tells whether a forwarding process is held.
    pub fn active(&self) -> (r: bool)
        ensures
            r == self.is_active(),
    {
        self.active
    }

    /// Takes charge of a new forwarding process and hands out the command
    /// that starts it. No process may be held already.
    pub fn start(&mut self, grant: &TunnelGrant, settings: &TunnelSettings) -> (command:
        TunnelCommand)
        requires
            !old(self).is_active(),
        ensures
            final(self).is_active(),
            command@ == ssh_command(grant@, settings@),
    {
        self.active = true;
        build_command(grant, settings)
    }

    /// Lets go of the process, and tells whether there was one to terminate.
    /// With no process held this does nothing.
    pub fn stop(&mut self) -> (was_active: bool)
        ensures
            !final(self).is_active(),
            was_active == old(self).is_active(),
    {
        let was_active = self.active;
        self.active = false;
        was_active
    }
}

} // verus!
