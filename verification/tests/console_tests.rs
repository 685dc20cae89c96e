use saab_audio::console::{console_step, ConsoleAction, ConsoleEvent, ConsoleState};
use saab_audio::link::{
    client_link_step, server_link_step, ClientLinkAction, ClientLinkEvent, ServerLinkAction,
    ServerLinkEvent,
};
use saab_audio::pidfile::{pid_file_text, pid_in_file};

fn connected() -> ConsoleState {
    console_step(ConsoleState::new(), ConsoleEvent::Connected).0
}

#[test]
fn console_starts_offline_with_switches_off() {
    let s = ConsoleState::new();
    assert!(!s.is_muted && !s.is_dimmed && !s.is_connected && !s.ping_pending);
}

#[test]
fn console_mute_twice_restores_and_sends_each_position() {
    let s = connected();
    let (s1, a1) = console_step(s, ConsoleEvent::ToggleMute);
    assert!(s1.is_muted);
    assert_eq!(a1, ConsoleAction::SendMute { muted: true });
    let (s2, a2) = console_step(s1, ConsoleEvent::ToggleMute);
    assert_eq!(s2, s);
    assert_eq!(a2, ConsoleAction::SendMute { muted: false });
}

#[test]
fn console_dim_leaves_mute_alone() {
    let (s1, _) = console_step(connected(), ConsoleEvent::ToggleMute);
    let (s2, a2) = console_step(s1, ConsoleEvent::ToggleDim);
    assert!(s2.is_muted && s2.is_dimmed);
    assert_eq!(a2, ConsoleAction::SendDim { dimmed: true });
}

#[test]
fn console_offline_sends_nothing() {
    let s = ConsoleState::new();
    let (s1, a1) = console_step(s, ConsoleEvent::ToggleMute);
    assert!(s1.is_muted);
    assert_eq!(a1, ConsoleAction::Nothing);
    assert_eq!(console_step(s, ConsoleEvent::VolumeChanged).1, ConsoleAction::SetVolume { send: false });
    assert_eq!(console_step(s, ConsoleEvent::PollTelemetry).1, ConsoleAction::Nothing);
    assert_eq!(console_step(s, ConsoleEvent::SendPing).1, ConsoleAction::Connect);
}

#[test]
fn console_ping_then_pong_times_one_round_trip() {
    let (s1, a1) = console_step(connected(), ConsoleEvent::SendPing);
    assert_eq!(a1, ConsoleAction::SendPing);
    assert!(s1.ping_pending);
    let (s2, a2) = console_step(s1, ConsoleEvent::PongReceived);
    assert_eq!(a2, ConsoleAction::RecordRoundTrip);
    assert!(!s2.ping_pending);
    assert_eq!(console_step(s2, ConsoleEvent::PongReceived).1, ConsoleAction::Nothing);
}

#[test]
fn console_failed_connection_goes_offline() {
    let (s1, a1) = console_step(connected(), ConsoleEvent::ConnectionFailed);
    assert!(!s1.is_connected);
    assert_eq!(a1, ConsoleAction::Nothing);
    assert_eq!(console_step(s1, ConsoleEvent::SendPing).1, ConsoleAction::Connect);
}

#[test]
fn console_reset_volume_is_a_volume_change() {
    let s = connected();
    assert_eq!(console_step(s, ConsoleEvent::ResetVolume), console_step(s, ConsoleEvent::VolumeChanged));
    assert_eq!(console_step(s, ConsoleEvent::ResetVolume).1, ConsoleAction::SetVolume { send: true });
    assert_eq!(console_step(s, ConsoleEvent::PollTelemetry).1, ConsoleAction::DrainTelemetry);
    assert_eq!(console_step(s, ConsoleEvent::VuReceived).1, ConsoleAction::ShowVu);
}

#[test]
fn server_link_answers_ping_and_dispatches_commands() {
    assert_eq!(
        server_link_step(ServerLinkEvent::PingCommand { client_timestamp_us: 77 }),
        ServerLinkAction::ReplyPong { client_timestamp_us: 77 }
    );
    assert_eq!(server_link_step(ServerLinkEvent::Command), ServerLinkAction::Dispatch);
    assert_eq!(server_link_step(ServerLinkEvent::Telemetry), ServerLinkAction::ForwardTelemetry);
    assert_eq!(server_link_step(ServerLinkEvent::UnreadableText), ServerLinkAction::Ignore);
    assert_eq!(server_link_step(ServerLinkEvent::TelemetryLost), ServerLinkAction::Ignore);
    assert_eq!(server_link_step(ServerLinkEvent::OtherFrame), ServerLinkAction::Ignore);
    assert_eq!(server_link_step(ServerLinkEvent::Closed), ServerLinkAction::Close);
    assert_eq!(server_link_step(ServerLinkEvent::ReceiveError), ServerLinkAction::Close);
    assert_eq!(server_link_step(ServerLinkEvent::TelemetrySendFailed), ServerLinkAction::Close);
}

#[test]
fn client_link_sends_delivers_and_closes() {
    assert_eq!(client_link_step(ClientLinkEvent::CommandQueued), ClientLinkAction::SendCommand);
    assert_eq!(client_link_step(ClientLinkEvent::Telemetry), ClientLinkAction::DeliverTelemetry);
    assert_eq!(client_link_step(ClientLinkEvent::UnreadableText), ClientLinkAction::Ignore);
    assert_eq!(client_link_step(ClientLinkEvent::OtherFrame), ClientLinkAction::Ignore);
    assert_eq!(client_link_step(ClientLinkEvent::Closed), ClientLinkAction::Close);
    assert_eq!(client_link_step(ClientLinkEvent::ReceiveError), ClientLinkAction::Close);
    assert_eq!(client_link_step(ClientLinkEvent::CommandSendFailed), ClientLinkAction::Close);
}

#[test]
fn pid_file_text_is_trimmed_and_read_as_i32() {
    assert_eq!(pid_in_file("4242\n"), Some(4242));
    assert_eq!(pid_in_file("  17  "), Some(17));
    assert_eq!(pid_in_file("+8"), Some(8));
    assert_eq!(pid_in_file("-12"), Some(-12));
    assert_eq!(pid_in_file("2147483647"), Some(i32::MAX));
    assert_eq!(pid_in_file("-2147483648"), Some(i32::MIN));
    assert_eq!(pid_in_file("0009"), Some(9));
}

#[test]
fn pid_file_rejects_what_parse_rejects() {
    for text in ["", "   ", "-", "+", "12a", "1 2", "2147483648", "-2147483649", "99999999999999999999", "+-1", "٣"] {
        assert_eq!(pid_in_file(text), text.trim().parse::<i32>().ok(), "{:?}", text);
        assert_eq!(pid_in_file(text), None, "{:?}", text);
    }
    for text in ["0", "\t31\r\n", "-0", "+2147483647", "\u{2003}5\u{3000}"] {
        assert_eq!(pid_in_file(text), text.trim().parse::<i32>().ok(), "{:?}", text);
    }
}

#[test]
fn pid_file_text_is_the_decimal_numeral() {
    assert_eq!(pid_file_text(0), "0");
    assert_eq!(pid_file_text(7), "7");
    assert_eq!(pid_file_text(4242), "4242");
    assert_eq!(pid_file_text(u32::MAX), u32::MAX.to_string());
}

#[test]
fn pid_file_written_by_start_is_read_by_stop() {
    for pid in [0u32, 1, 9, 10, 99, 100, 31337, 2147483647] {
        assert_eq!(pid_in_file(&pid_file_text(pid)), Some(pid as i32));
    }
    assert_eq!(pid_in_file(&pid_file_text(2147483648)), None);
}
