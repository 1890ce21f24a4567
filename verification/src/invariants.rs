//! What holds of every session, whatever the relay, the operator and the
//! operating system do.
//!
//! The statements speak of `react`, which is what `Session::step` does, and of
//! runs: a fresh session that takes a sequence of events one after the other.

use vstd::prelude::*;
use crate::error::ClientErrorView;
use crate::message::MessageView;
use crate::session::{react, CommandView, EventView, IntentView, Phase, Reaction, SettingsView};

verus! {

/// The phase that a session in `phase` reaches when it takes `events` in
/// order.
pub open spec fn run(settings: SettingsView, phase: Phase, events: Seq<EventView>) -> Phase
    decreases events.len(),
{
    if events.len() == 0 {
        phase
    } else {
        react(settings, run(settings, phase, events.drop_last()), events.last()).phase
    }
}

/// All the commands that a session in `phase` gives while it takes `events`
/// in order.
pub open spec fn output(settings: SettingsView, phase: Phase, events: Seq<EventView>) -> Seq<
    CommandView,
>
    decreases events.len(),
{
    if events.len() == 0 {
        Seq::empty()
    } else {
        output(settings, phase, events.drop_last()) + react(
            settings,
            run(settings, phase, events.drop_last()),
            events.last(),
        ).commands
    }
}

/// Whether the event is the relay's acceptance of the registration.
pub open spec fn is_acceptance(event: EventView) -> bool {
    event matches EventView::Received(MessageView::Response { success, .. }) && success
}

/// Whether a forwarding process is alive once `commands` are carried out in
/// order, given whether one was alive before. `None` if the commands are out of
/// order: a process started while one is alive, or the client exiting while one
/// is alive.
pub open spec fn tunnel_after(alive: bool, commands: Seq<CommandView>) -> Option<bool>
    decreases commands.len(),
{
    if commands.len() == 0 {
        Some(alive)
    } else {
        match tunnel_after(alive, commands.drop_last()) {
            None => None,
            Some(before) => match commands.last() {
                CommandView::StartTunnel(_) => if before {
                    None
                } else {
                    Some(true)
                },
                CommandView::StopTunnel => Some(false),
                CommandView::Fail(_) => if before {
                    None
                } else {
                    Some(false)
                },
                CommandView::Finish => if before {
                    None
                } else {
                    Some(false)
                },
                _ => Some(before),
            },
        }
    }
}

/// Carrying out two lists of commands one after the other is carrying out
/// their concatenation.
pub proof fn lemma_tunnel_after_concat(
    alive: bool,
    first: Seq<CommandView>,
    second: Seq<CommandView>,
)
    ensures
        tunnel_after(alive, first + second) == match tunnel_after(alive, first) {
            None => None,
            Some(between) => tunnel_after(between, second),
        },
    decreases second.len(),
{
    if second.len() > 0 {
        lemma_tunnel_after_concat(alive, first, second.drop_last());
        assert((first + second).drop_last() =~= first + second.drop_last());
    }
}

/// A session that is over takes no further step: it keeps its phase and
/// gives no command.
pub proof fn lemma_terminal_is_silent(settings: SettingsView, phase: Phase, event: EventView)
    requires
        phase.is_terminal(),
    ensures
        react(settings, phase, event) == (Reaction { phase, commands: Seq::empty() }),
{
}

/// Registration gates negotiation, step by step: a session that is not
/// registered yet gives no command of the negotiation and does not start to
/// negotiate, unless it waits for the answer to its registration and the event
/// is the relay's acceptance.
pub proof fn lemma_registration_gates_step(settings: SettingsView, phase: Phase, event: EventView)
    requires
        phase is Fresh || phase is Registering,
    ensures
        ({
            let reaction = react(settings, phase, event);
            let accepted = phase is Registering && is_acceptance(event);
            &&& reaction.phase.is_negotiating() ==> accepted
            &&& forall|i: int|
                0 <= i < reaction.commands.len() && (#[trigger] reaction.commands[i]).is_negotiation()
                    ==> accepted
        }),
{
}

/// Registration gates negotiation, over a whole run: if a fresh session ever
/// negotiates, or has given a command of the negotiation, then at some point it
/// waited for the answer to its registration and the relay accepted.
pub proof fn lemma_registration_gates_negotiation(settings: SettingsView, events: Seq<EventView>)
    ensures
        ({
            let commands = output(settings, Phase::Fresh, events);
            (run(settings, Phase::Fresh, events).is_negotiating() || exists|i: int|
                0 <= i < commands.len() && (#[trigger] commands[i]).is_negotiation()) ==> exists|
                k: int,
            |
                0 <= k < events.len() && is_acceptance(#[trigger] events[k]) && run(
                    settings,
                    Phase::Fresh,
                    events.take(k),
                ) is Registering
        }),
    decreases events.len(),
{
    if events.len() > 0 {
        let earlier = events.drop_last();
        let before = run(settings, Phase::Fresh, earlier);
        let commands = output(settings, Phase::Fresh, events);
        let earlier_commands = output(settings, Phase::Fresh, earlier);
        lemma_registration_gates_negotiation(settings, earlier);
        let goal = exists|k: int|
            0 <= k < events.len() && is_acceptance(#[trigger] events[k]) && run(
                settings,
                Phase::Fresh,
                events.take(k),
            ) is Registering;
        // An acceptance found in the earlier events is one in all of them.
        assert forall|k: int|
            0 <= k < earlier.len() && is_acceptance(#[trigger] earlier[k]) && run(
                settings,
                Phase::Fresh,
                earlier.take(k),
            ) is Registering implies goal by {
            assert(earlier.take(k) =~= events.take(k));
        }
        // The last event is the acceptance itself, or it changes nothing of
        // what was negotiated before.
        assert(events.take(events.len() - 1) =~= earlier);
        if before is Fresh || before is Registering {
            lemma_registration_gates_step(settings, before, events.last());
        } else if before.is_terminal() {
            lemma_terminal_is_silent(settings, before, events.last());
        }
        // A command of the negotiation was given earlier or in the last step.
        if exists|i: int| 0 <= i < commands.len() && (#[trigger] commands[i]).is_negotiation() {
            let i = choose|i: int|
                0 <= i < commands.len() && (#[trigger] commands[i]).is_negotiation();
            if i < earlier_commands.len() {
                assert(earlier_commands[i] == commands[i]);
            }
        }
    }
}

/// A tunnel granted for the other role is fatal: whatever the phase of a
/// session that is not over, it ends in failure on a protocol error, and no
/// forwarding process is started.
pub proof fn lemma_foreign_grant_is_fatal(settings: SettingsView, phase: Phase, grant: MessageView)
    requires
        !phase.is_terminal(),
        grant matches MessageView::TunnelConnect { client_type, .. } && client_type
            != settings.role(),
    ensures
        ({
            let reaction = react(settings, phase, EventView::Received(grant));
            &&& reaction.phase is Failed
            &&& reaction.commands.len() >= 1
            &&& reaction.commands.last() matches CommandView::Fail(ClientErrorView::Protocol(_))
            &&& forall|i: int|
                0 <= i < reaction.commands.len() ==> !(#[trigger] reaction.commands[i]
                    is StartTunnel)
        }),
{
}

/// One step keeps the forwarding process in order: a process is alive exactly
/// in the phase `TunnelActive`, none is started while one is alive, and the
/// client exits only when none is alive.
pub proof fn lemma_step_keeps_tunnel_in_order(
    settings: SettingsView,
    phase: Phase,
    event: EventView,
)
    ensures
        ({
            let reaction = react(settings, phase, event);
            tunnel_after(phase is TunnelActive, reaction.commands) == Some(
                reaction.phase is TunnelActive,
            )
        }),
{
    let reaction = react(settings, phase, event);
    let commands = reaction.commands;
    let alive = phase is TunnelActive;
    if commands.len() == 1 {
        assert(tunnel_after(alive, commands.drop_last()) == Some(alive));
    } else if commands.len() == 2 {
        let head = commands.drop_last();
        assert(tunnel_after(alive, head.drop_last()) == Some(alive));
    }
}

/// Over a whole run the forwarding process is kept in order: from a fresh
/// session no process is ever started while another is alive, every exit comes
/// after the process, if there was one, was stopped, and a process is alive at
/// the end exactly if the session is in the phase `TunnelActive`.
pub proof fn lemma_run_keeps_tunnel_in_order(settings: SettingsView, events: Seq<EventView>)
    ensures
        tunnel_after(false, output(settings, Phase::Fresh, events)) == Some(
            run(settings, Phase::Fresh, events) is TunnelActive,
        ),
    decreases events.len(),
{
    if events.len() > 0 {
        let earlier = events.drop_last();
        let before = run(settings, Phase::Fresh, earlier);
        lemma_run_keeps_tunnel_in_order(settings, earlier);
        lemma_step_keeps_tunnel_in_order(settings, before, events.last());
        lemma_tunnel_after_concat(
            false,
            output(settings, Phase::Fresh, earlier),
            react(settings, before, events.last()).commands,
        );
    }
}

/// The client exits with status zero in one case only: a `TunnelClose`
/// reaches it while it holds the forwarding process. Then the process is
/// stopped first and nothing else is done.
pub proof fn lemma_success_is_a_closed_tunnel(settings: SettingsView, phase: Phase, event: EventView)
    ensures
        ({
            let reaction = react(settings, phase, event);
            let closed = phase is TunnelActive && event == EventView::Received(
                MessageView::TunnelClose,
            );
            &&& closed ==> reaction == (Reaction {
                phase: Phase::Closed,
                commands: seq![CommandView::StopTunnel, CommandView::Finish],
            })
            &&& !closed ==> !(reaction.phase is Closed) || phase is Closed
            &&& !closed ==> forall|i: int|
                0 <= i < reaction.commands.len() ==> !(#[trigger] reaction.commands[i] is Finish)
        }),
{
}

/// Errors are told for what they are: an error that ends the session comes
/// as `Fail`, as the last command, and leaves the session over; the one error
/// that does not end it, a failed start of the forwarding process, comes as
/// `Report` and leaves the session waiting for the relay.
pub proof fn lemma_errors_end_the_session_or_not(
    settings: SettingsView,
    phase: Phase,
    event: EventView,
)
    ensures
        ({
            let reaction = react(settings, phase, event);
            forall|i: int|
                0 <= i < reaction.commands.len() ==> match #[trigger] reaction.commands[i] {
                    CommandView::Fail(error) => {
                        &&& error.is_fatal()
                        &&& i == reaction.commands.len() - 1
                        &&& reaction.phase is Failed || reaction.phase is Denied
                    },
                    CommandView::Report(error) => {
                        &&& !error.is_fatal()
                        &&& reaction.phase == settings.waiting()
                    },
                    CommandView::Finish => {
                        &&& i == reaction.commands.len() - 1
                        &&& reaction.phase is Closed
                    },
                    _ => true,
                }
        }),
{
}

/// With auto-accept a request is accepted at once: the answer to a
/// `ConnectConfirm` is a `ConnectAccept` and nothing else, and the sender goes
/// on waiting for events.
pub proof fn lemma_auto_accept_answers_at_once(
    settings: SettingsView,
    source_client: Seq<char>,
    port: u16,
)
    requires
        settings.auto_accept(),
    ensures
        react(
            settings,
            Phase::AwaitingEvent,
            EventView::Received(MessageView::ConnectConfirm { source_client, port }),
        ) == (Reaction {
            phase: Phase::AwaitingEvent,
            commands: seq![CommandView::Send(MessageView::ConnectAccept)],
        }),
{
}

/// With auto-accept the operator is never asked: no step gives a `Confirm`
/// command, and no step leads into the phase `Confirming`.
pub proof fn lemma_auto_accept_never_asks(settings: SettingsView, phase: Phase, event: EventView)
    requires
        settings.auto_accept(),
        !(phase is Confirming),
    ensures
        ({
            let reaction = react(settings, phase, event);
            &&& !(reaction.phase is Confirming)
            &&& forall|i: int|
                0 <= i < reaction.commands.len() ==> !(#[trigger] reaction.commands[i] is Confirm)
        }),
{
}

/// With auto-accept the operator is never asked, over a whole run: a fresh
/// session never waits for the operator and never gives a `Confirm` command.
pub proof fn lemma_auto_accept_run_never_asks(settings: SettingsView, events: Seq<EventView>)
    requires
        settings.auto_accept(),
    ensures
        !(run(settings, Phase::Fresh, events) is Confirming),
        forall|i: int|
            0 <= i < output(settings, Phase::Fresh, events).len() ==> !(#[trigger] output(
                settings,
                Phase::Fresh,
                events,
            )[i] is Confirm),
    decreases events.len(),
{
    if events.len() > 0 {
        let earlier = events.drop_last();
        lemma_auto_accept_run_never_asks(settings, earlier);
        lemma_auto_accept_never_asks(
            settings,
            run(settings, Phase::Fresh, earlier),
            events.last(),
        );
    }
}

/// Whether the phase is one that a client with these settings can be in: only
/// a sender waits for events or for the operator, only a receiver waits for
/// the answer to a request or is denied.
pub open spec fn phase_fits(settings: SettingsView, phase: Phase) -> bool {
    match settings.intent {
        IntentView::Host(_) => !(phase is RequestSent) && !(phase is Denied),
        IntentView::Connect(_) => !(phase is AwaitingEvent) && !(phase is Confirming),
    }
}

/// A run never leaves the phases of the client's role.
pub proof fn lemma_run_fits_role(settings: SettingsView, events: Seq<EventView>)
    ensures
        phase_fits(settings, run(settings, Phase::Fresh, events)),
    decreases events.len(),
{
    if events.len() > 0 {
        lemma_run_fits_role(settings, events.drop_last());
    }
}

} // verus!
