//! The decisions of the WebSocket control link, on both ends: what the
//! capture server does with each frame a console sends and with each
//! telemetry packet it has to fan out, and what a console's link task does
//! with each queued command and each frame the server sends. The callers do
//! the socket work and the (de)serialisation and hand each outcome in as an
//! event.

use vstd::prelude::*;

verus! {

/// What the server's session with one console saw next.
#[derive(Debug, Clone, Copy, PartialEq, Eq, Structural)]
pub enum ServerLinkEvent {
    /// A text frame holding a ping command, with the console's timestamp.
    PingCommand { client_timestamp_us: u64 },
    /// A text frame holding any other control command.
    Command,
    /// A text frame that holds no control command.
    UnreadableText,
    /// A binary, ping or pong frame.
    OtherFrame,
    /// A close frame, or the end of the stream.
    Closed,
    /// The socket reported an error while receiving.
    ReceiveError,
    /// A telemetry packet is ready to be fanned out.
    Telemetry,
    /// The telemetry channel lagged or closed.
    TelemetryLost,
    /// Sending a telemetry packet to the console failed.
    TelemetrySendFailed,
}

/// What the server's session does about it.
#[derive(Debug, Clone, Copy, PartialEq, Eq, Structural)]
pub enum ServerLinkAction {
    /// Answer with a pong that echoes the console's timestamp beside the
    /// server's clock.
    ReplyPong { client_timestamp_us: u64 },
    /// Hand the command to the mixer.
    Dispatch,
    /// Send the telemetry packet to the console.
    ForwardTelemetry,
    /// Carry on.
    Ignore,
    /// End the session.
    Close,
}

/// The server's answer to each event of a console session.
pub open spec fn server_link_action(event: ServerLinkEvent) -> ServerLinkAction {
    match event {
        ServerLinkEvent::PingCommand { client_timestamp_us } => ServerLinkAction::ReplyPong {
            client_timestamp_us,
        },
        ServerLinkEvent::Command => ServerLinkAction::Dispatch,
        ServerLinkEvent::Telemetry => ServerLinkAction::ForwardTelemetry,
        ServerLinkEvent::Closed => ServerLinkAction::Close,
        ServerLinkEvent::ReceiveError => ServerLinkAction::Close,
        ServerLinkEvent::TelemetrySendFailed => ServerLinkAction::Close,
        _ => ServerLinkAction::Ignore,
    }
}

/// Decides what the server does with the next event of a console session.
/// A ping is answered at once and never reaches the mixer; the session ends
/// exactly on a close, a receive error or a failed telemetry send.
pub fn server_link_step(event: ServerLinkEvent) -> (a: ServerLinkAction)
    ensures
        a == server_link_action(event),
        (a == ServerLinkAction::Close) <==> (event == ServerLinkEvent::Closed || event
            == ServerLinkEvent::ReceiveError || event == ServerLinkEvent::TelemetrySendFailed),
        (a == ServerLinkAction::Dispatch) <==> (event == ServerLinkEvent::Command),
{
    match event {
        ServerLinkEvent::PingCommand { client_timestamp_us } => ServerLinkAction::ReplyPong {
            client_timestamp_us,
        },
        ServerLinkEvent::Command => ServerLinkAction::Dispatch,
        ServerLinkEvent::Telemetry => ServerLinkAction::ForwardTelemetry,
        ServerLinkEvent::Closed | ServerLinkEvent::ReceiveError
        | ServerLinkEvent::TelemetrySendFailed => ServerLinkAction::Close,
        ServerLinkEvent::UnreadableText | ServerLinkEvent::OtherFrame
        | ServerLinkEvent::TelemetryLost => ServerLinkAction::Ignore,
    }
}

/// What a console's link task saw next.
#[derive(Debug, Clone, Copy, PartialEq, Eq, Structural)]
pub enum ClientLinkEvent {
    /// The console queued a control command.
    CommandQueued,
    /// Sending a command to the server failed.
    CommandSendFailed,
    /// A text frame holding a telemetry packet.
    Telemetry,
    /// A text frame that holds no telemetry packet.
    UnreadableText,
    /// A binary, ping or pong frame.
    OtherFrame,
    /// A close frame.
    Closed,
    /// The socket reported an error while receiving.
    ReceiveError,
}

/// What the link task does about it.
#[derive(Debug, Clone, Copy, PartialEq, Eq, Structural)]
pub enum ClientLinkAction {
    /// Send the command to the server.
    SendCommand,
    /// Hand the packet to the console.
    DeliverTelemetry,
    /// Carry on.
    Ignore,
    /// End the link task.
    Close,
}

/// The link task's answer to each event.
pub open spec fn client_link_action(event: ClientLinkEvent) -> ClientLinkAction {
    match event {
        ClientLinkEvent::CommandQueued => ClientLinkAction::SendCommand,
        ClientLinkEvent::Telemetry => ClientLinkAction::DeliverTelemetry,
        ClientLinkEvent::CommandSendFailed => ClientLinkAction::Close,
        ClientLinkEvent::Closed => ClientLinkAction::Close,
        ClientLinkEvent::ReceiveError => ClientLinkAction::Close,
        _ => ClientLinkAction::Ignore,
    }
}

/// Decides what a console's link task does with its next event. It ends
/// exactly on a failed send, a close frame or a receive error.
pub fn client_link_step(event: ClientLinkEvent) -> (a: ClientLinkAction)
    ensures
        a == client_link_action(event),
        (a == ClientLinkAction::Close) <==> (event == ClientLinkEvent::CommandSendFailed || event
            == ClientLinkEvent::Closed || event == ClientLinkEvent::ReceiveError),
{
    match event {
        ClientLinkEvent::CommandQueued => ClientLinkAction::SendCommand,
        ClientLinkEvent::Telemetry => ClientLinkAction::DeliverTelemetry,
        ClientLinkEvent::CommandSendFailed | ClientLinkEvent::Closed
        | ClientLinkEvent::ReceiveError => ClientLinkAction::Close,
        ClientLinkEvent::UnreadableText | ClientLinkEvent::OtherFrame => ClientLinkAction::Ignore,
    }
}

} // verus!
