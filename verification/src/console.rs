//! The decisions of the studio console: how each event of the user interface
//! or of the control link changes the console's switches and link state, and
//! which piece of outside work (a command to the server, a connection attempt,
//! a telemetry poll) it asks for. The caller performs the work and hands the
//! outcome back as the next event.

use vstd::prelude::*;

verus! {

/// The console's switches and the state of its control link. The caller
/// holds the control client and the telemetry channel exactly while
/// `is_connected` holds, and the master level in dB beside this state.
#[derive(Debug, Clone, Copy, PartialEq, Eq, Structural)]
pub struct ConsoleState {
    pub is_muted: bool,
    pub is_dimmed: bool,
    pub is_connected: bool,
    /// A ping was sent and its reply has not been timed yet.
    pub ping_pending: bool,
}

/// What happened: a user gesture, a tick, or the outcome of earlier work.
#[derive(Debug, Clone, Copy, PartialEq, Eq, Structural)]
pub enum ConsoleEvent {
    /// The master fader moved; the caller holds the new level.
    VolumeChanged,
    /// The fader was reset to 0 dB.
    ResetVolume,
    ToggleMute,
    ToggleDim,
    /// A connection attempt succeeded.
    Connected,
    /// A connection attempt failed.
    ConnectionFailed,
    /// A VU meter reading arrived from the server.
    VuReceived,
    /// A reply to a ping arrived from the server.
    PongReceived,
    /// Some other telemetry arrived.
    OtherTelemetry,
    /// The once-a-second ping tick.
    SendPing,
    /// The frame tick that drains the telemetry channel.
    PollTelemetry,
    Noop,
}

/// The outside work an event asks for.
#[derive(Debug, Clone, Copy, PartialEq, Eq, Structural)]
pub enum ConsoleAction {
    Nothing,
    /// Keep the new master level; when `send` holds, also send it to the server.
    SetVolume { send: bool },
    /// Send the new mute switch to the server.
    SendMute { muted: bool },
    /// Send the new dim switch to the server.
    SendDim { dimmed: bool },
    /// Note the time and send a ping to the server.
    SendPing,
    /// Try to connect to the server.
    Connect,
    /// Drain the telemetry channel and hand on its last packet.
    DrainTelemetry,
    /// Feed the reading through the VU meter's ballistics and show it.
    ShowVu,
    /// Take the time since the pending ping as the round trip.
    RecordRoundTrip,
}

impl ConsoleState {
    /// The console at start-up: switches off, not connected.
    pub fn new() -> (s: Self)
        ensures
            s == console_start(),
    {
        ConsoleState { is_muted: false, is_dimmed: false, is_connected: false, ping_pending: false }
    }
}

/// The console at start-up.
pub open spec fn console_start() -> ConsoleState {
    ConsoleState { is_muted: false, is_dimmed: false, is_connected: false, ping_pending: false }
}

/// The state after `event`.
pub open spec fn console_next(s: ConsoleState, event: ConsoleEvent) -> ConsoleState {
    match event {
        ConsoleEvent::ToggleMute => ConsoleState { is_muted: !s.is_muted, ..s },
        ConsoleEvent::ToggleDim => ConsoleState { is_dimmed: !s.is_dimmed, ..s },
        ConsoleEvent::Connected => ConsoleState { is_connected: true, ..s },
        ConsoleEvent::ConnectionFailed => ConsoleState { is_connected: false, ..s },
        ConsoleEvent::PongReceived => ConsoleState { ping_pending: false, ..s },
        ConsoleEvent::SendPing => if s.is_connected {
            ConsoleState { ping_pending: true, ..s }
        } else {
            s
        },
        _ => s,
    }
}

/// The work that `event` asks for in state `s`. Commands go to the server
/// only over a live link.
pub open spec fn console_action(s: ConsoleState, event: ConsoleEvent) -> ConsoleAction {
    match event {
        ConsoleEvent::VolumeChanged => ConsoleAction::SetVolume { send: s.is_connected },
        ConsoleEvent::ResetVolume => ConsoleAction::SetVolume { send: s.is_connected },
        ConsoleEvent::ToggleMute => if s.is_connected {
            ConsoleAction::SendMute { muted: !s.is_muted }
        } else {
            ConsoleAction::Nothing
        },
        ConsoleEvent::ToggleDim => if s.is_connected {
            ConsoleAction::SendDim { dimmed: !s.is_dimmed }
        } else {
            ConsoleAction::Nothing
        },
        ConsoleEvent::VuReceived => ConsoleAction::ShowVu,
        ConsoleEvent::PongReceived => if s.ping_pending {
            ConsoleAction::RecordRoundTrip
        } else {
            ConsoleAction::Nothing
        },
        ConsoleEvent::SendPing => if s.is_connected {
            ConsoleAction::SendPing
        } else {
            ConsoleAction::Connect
        },
        ConsoleEvent::PollTelemetry => if s.is_connected {
            ConsoleAction::DrainTelemetry
        } else {
            ConsoleAction::Nothing
        },
        _ => ConsoleAction::Nothing,
    }
}

/// Whether an action sends something to the server.
pub open spec fn sends_to_server(a: ConsoleAction) -> bool {
    match a {
        ConsoleAction::SetVolume { send } => send,
        ConsoleAction::SendMute { .. } => true,
        ConsoleAction::SendDim { .. } => true,
        ConsoleAction::SendPing => true,
        _ => false,
    }
}

/// Applies `event` to the console: returns the next state and the work to do.
pub fn console_step(s: ConsoleState, event: ConsoleEvent) -> (r: (ConsoleState, ConsoleAction))
    ensures
        r.0 == console_next(s, event),
        r.1 == console_action(s, event),
{
    match event {
        ConsoleEvent::VolumeChanged | ConsoleEvent::ResetVolume => {
            (s, ConsoleAction::SetVolume { send: s.is_connected })
        },
        ConsoleEvent::ToggleMute => {
            let next = ConsoleState { is_muted: !s.is_muted, ..s };
            if s.is_connected {
                (next, ConsoleAction::SendMute { muted: next.is_muted })
            } else {
                (next, ConsoleAction::Nothing)
            }
        },
        ConsoleEvent::ToggleDim => {
            let next = ConsoleState { is_dimmed: !s.is_dimmed, ..s };
            if s.is_connected {
                (next, ConsoleAction::SendDim { dimmed: next.is_dimmed })
            } else {
                (next, ConsoleAction::Nothing)
            }
        },
        ConsoleEvent::Connected => (ConsoleState { is_connected: true, ..s }, ConsoleAction::Nothing),
        ConsoleEvent::ConnectionFailed => {
            (ConsoleState { is_connected: false, ..s }, ConsoleAction::Nothing)
        },
        ConsoleEvent::VuReceived => (s, ConsoleAction::ShowVu),
        ConsoleEvent::PongReceived => {
            let action = if s.ping_pending {
                ConsoleAction::RecordRoundTrip
            } else {
                ConsoleAction::Nothing
            };
            (ConsoleState { ping_pending: false, ..s }, action)
        },
        ConsoleEvent::SendPing => {
            if s.is_connected {
                (ConsoleState { ping_pending: true, ..s }, ConsoleAction::SendPing)
            } else {
                (s, ConsoleAction::Connect)
            }
        },
        ConsoleEvent::PollTelemetry => {
            if s.is_connected {
                (s, ConsoleAction::DrainTelemetry)
            } else {
                (s, ConsoleAction::Nothing)
            }
        },
        ConsoleEvent::OtherTelemetry | ConsoleEvent::Noop => (s, ConsoleAction::Nothing),
    }
}

/// Pressing mute twice, or dim twice, gives back the state before, and the
/// second press sends the switch as it was before the first.
pub proof fn lemma_toggle_twice(s: ConsoleState)
    ensures
        console_next(console_next(s, ConsoleEvent::ToggleMute), ConsoleEvent::ToggleMute) == s,
        console_next(console_next(s, ConsoleEvent::ToggleDim), ConsoleEvent::ToggleDim) == s,
        s.is_connected ==> console_action(console_next(s, ConsoleEvent::ToggleMute), ConsoleEvent::ToggleMute)
            == (ConsoleAction::SendMute { muted: s.is_muted }),
        s.is_connected ==> console_action(console_next(s, ConsoleEvent::ToggleDim), ConsoleEvent::ToggleDim)
            == (ConsoleAction::SendDim { dimmed: s.is_dimmed }),
{
}

/// Every press of mute or dim flips that switch, whether the console is
/// connected or not.
pub proof fn lemma_press_flips_switch(s: ConsoleState)
    ensures
        console_next(s, ConsoleEvent::ToggleMute).is_muted == !s.is_muted,
        console_next(s, ConsoleEvent::ToggleDim).is_dimmed == !s.is_dimmed,
{
}

/// The two switches are independent: mute leaves dim as it is and the other
/// way round, and neither touches the link.
pub proof fn lemma_switches_independent(s: ConsoleState)
    ensures
        console_next(s, ConsoleEvent::ToggleMute).is_dimmed == s.is_dimmed,
        console_next(s, ConsoleEvent::ToggleDim).is_muted == s.is_muted,
        console_next(s, ConsoleEvent::ToggleMute).is_connected == s.is_connected,
        console_next(s, ConsoleEvent::ToggleDim).is_connected == s.is_connected,
{
}

/// Nothing goes to the server while the link is down, whatever the event;
/// over a live link every switch press is sent, carrying the new position.
pub proof fn lemma_sends_only_when_connected(s: ConsoleState, event: ConsoleEvent)
    ensures
        !s.is_connected ==> !sends_to_server(console_action(s, event)),
        s.is_connected && event == ConsoleEvent::ToggleMute ==> console_action(s, event) == (
        ConsoleAction::SendMute { muted: console_next(s, event).is_muted }),
        s.is_connected && event == ConsoleEvent::ToggleDim ==> console_action(s, event) == (
        ConsoleAction::SendDim { dimmed: console_next(s, event).is_dimmed }),
{
}

/// A ping tick on a dead link asks for a new connection; once that fails the
/// console is still disconnected, so the next tick asks again.
pub proof fn lemma_ping_reconnects(s: ConsoleState)
    ensures
        !s.is_connected ==> console_action(s, ConsoleEvent::SendPing) == ConsoleAction::Connect,
        console_action(console_next(s, ConsoleEvent::ConnectionFailed), ConsoleEvent::SendPing)
            == ConsoleAction::Connect,
        console_action(console_next(s, ConsoleEvent::Connected), ConsoleEvent::SendPing)
            == ConsoleAction::SendPing,
{
}

/// A round trip is timed at most once per ping: a reply times the pending
/// ping, and a second reply to the same ping times nothing.
pub proof fn lemma_round_trip_once(s: ConsoleState)
    ensures
        s.is_connected ==> console_action(
            console_next(s, ConsoleEvent::SendPing),
            ConsoleEvent::PongReceived,
        ) == ConsoleAction::RecordRoundTrip,
        console_action(
            console_next(s, ConsoleEvent::PongReceived),
            ConsoleEvent::PongReceived,
        ) == ConsoleAction::Nothing,
{
}

/// Resetting the fader is a fader move to 0 dB: the same state and the same
/// work, with the level the caller holds.
pub proof fn lemma_reset_is_volume_change(s: ConsoleState)
    ensures
        console_next(s, ConsoleEvent::ResetVolume) == console_next(s, ConsoleEvent::VolumeChanged),
        console_action(s, ConsoleEvent::ResetVolume) == console_action(
            s,
            ConsoleEvent::VolumeChanged,
        ),
{
}

} // verus!
