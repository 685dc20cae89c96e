use saab_audio::cli::{Cli, CliError, Commands};
use saab_audio::config::SaabConfig;

#[test]
fn test_default_config_values() {
    let config = SaabConfig::default();
    assert_eq!(config.version, "1.0");
    assert_eq!(config.audio.device_name, "BlackHole 16ch");
    assert_eq!(config.audio.sample_rate, 48000);
    assert_eq!(config.network.audio_port, 48480);
    assert_eq!(config.network.ws_port, 9001);
    assert!(config.adb.auto_reverse_port);
}

#[test]
fn default_config_network_and_adb() {
    let config = SaabConfig::default();
    assert_eq!(config.network.mode, "wifi");
    assert_eq!(config.network.android_ip, "127.0.0.1");
    assert_eq!(config.adb.target_device, "auto");
}

#[test]
fn config_paths() {
    let home = Some(b"/home/a/.config".to_vec());
    assert_eq!(SaabConfig::config_dir_under(home.clone()), b"/home/a/.config/saab".to_vec());
    assert_eq!(SaabConfig::config_file_path_under(home.clone()), b"/home/a/.config/saab/config.json".to_vec());
    assert_eq!(SaabConfig::logs_dir_under(home.clone()), b"/home/a/.config/saab/logs".to_vec());
    assert_eq!(SaabConfig::pids_dir_under(home), b"/home/a/.config/saab/pids".to_vec());
    assert_eq!(SaabConfig::config_dir_under(None), b"~/.config/saab".to_vec());
    assert_eq!(SaabConfig::config_dir_under(Some(b"/x/".to_vec())), b"/x/saab".to_vec());
    assert_eq!(SaabConfig::config_dir_under(Some(Vec::new())), b"saab".to_vec());
    assert_eq!(SaabConfig::cache_dir_under(None), b"~/.cache/saab".to_vec());
    assert_eq!(SaabConfig::cache_dir_under(Some(b"/c".to_vec())), b"/c/saab".to_vec());
}

#[test]
fn config_paths_keep_bytes_that_are_not_utf8() {
    let odd = Some(vec![b'/', b'h', 0xff, 0xfe]);
    assert_eq!(SaabConfig::config_dir_under(odd.clone()), vec![b'/', b'h', 0xff, 0xfe, b'/', b's', b'a', b'a', b'b']);
    assert_eq!(SaabConfig::cache_dir_under(odd), vec![b'/', b'h', 0xff, 0xfe, b'/', b's', b'a', b'a', b'b']);
}

#[test]
fn config_paths_of_current_user() {
    let dir = SaabConfig::config_dir();
    assert!(dir.ends_with(b"/saab") || dir == b"saab".to_vec());
    let with = |name: &[u8]| {
        let mut p = dir.clone();
        p.push(b'/');
        p.extend_from_slice(name);
        p
    };
    assert_eq!(SaabConfig::config_file_path(), with(b"config.json"));
    assert_eq!(SaabConfig::logs_dir(), with(b"logs"));
    assert_eq!(SaabConfig::pids_dir(), with(b"pids"));
    let cache = SaabConfig::cache_dir();
    assert!(cache.ends_with(b"/saab") || cache == b"saab".to_vec());
}

#[test]
fn test_cli_parsing_configure() {
    let cli = Cli::try_parse_from(&["saab", "configure"]).unwrap();
    assert_eq!(cli.command, Commands::Configure);
}

#[test]
fn test_cli_parsing_start_stop_status() {
    assert_eq!(Cli::try_parse_from(&["saab", "start"]).unwrap().command, Commands::Start);
    assert_eq!(Cli::try_parse_from(&["saab", "stop"]).unwrap().command, Commands::Stop);
    assert_eq!(Cli::try_parse_from(&["saab", "status"]).unwrap().command, Commands::Status);
    assert_eq!(Cli::try_parse_from(&["saab", "studio"]).unwrap().command, Commands::Studio);
}

#[test]
fn test_cli_parsing_logs_flags() {
    let logs_mac = Cli::try_parse_from(&["saab", "logs", "--server-mac"]).unwrap();
    assert_eq!(logs_mac.command, Commands::Logs { server_mac: true, device_android: false });

    let logs_android = Cli::try_parse_from(&["saab", "logs", "--device-android"]).unwrap();
    assert_eq!(logs_android.command, Commands::Logs { server_mac: false, device_android: true });
}

#[test]
fn cli_errors() {
    assert_eq!(Cli::try_parse_from(&["saab"]), Err(CliError::MissingSubcommand));
    assert_eq!(Cli::try_parse_from(&[]), Err(CliError::MissingSubcommand));
    assert_eq!(Cli::try_parse_from(&["saab", "--help"]), Err(CliError::DisplayHelp));
    assert_eq!(Cli::try_parse_from(&["saab", "-V"]), Err(CliError::DisplayVersion));
    assert_eq!(Cli::try_parse_from(&["saab", "help"]), Err(CliError::DisplayHelp));
    assert_eq!(Cli::try_parse_from(&["saab", "help", "logs"]), Err(CliError::DisplayHelp));
    assert_eq!(Cli::try_parse_from(&["saab", "help", "nope"]), Err(CliError::InvalidSubcommand(2)));
    assert_eq!(Cli::try_parse_from(&["saab", "launch"]), Err(CliError::InvalidSubcommand(1)));
    assert_eq!(Cli::try_parse_from(&["saab", "--loud"]), Err(CliError::UnknownArgument(1)));
    assert_eq!(Cli::try_parse_from(&["saab", "start", "now"]), Err(CliError::UnknownArgument(2)));
    assert_eq!(Cli::try_parse_from(&["saab", "start", "-V"]), Err(CliError::UnknownArgument(2)));
    assert_eq!(Cli::try_parse_from(&["saab", "stop", "-h"]), Err(CliError::DisplayHelp));
    assert_eq!(
        Cli::try_parse_from(&["saab", "logs", "--server-mac", "--server-mac"]),
        Err(CliError::ArgumentConflict(3))
    );
    assert_eq!(
        Cli::try_parse_from(&["saab", "status", "--server-mac"]),
        Err(CliError::UnknownArgument(2))
    );
}

#[test]
fn cli_logs_both_flags_any_order() {
    let cli = Cli::try_parse_from(&["saab", "logs", "--device-android", "--server-mac"]).unwrap();
    assert_eq!(cli.command, Commands::Logs { server_mac: true, device_android: true });
    let cli = Cli::try_parse_from(&["saab", "logs"]).unwrap();
    assert_eq!(cli.command, Commands::Logs { server_mac: false, device_android: false });
}
