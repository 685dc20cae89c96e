//! The grammar of the `saab` command line.
//!
//! `saab <COMMAND>` where the command is `configure`, `start`, `stop`,
//! `status`, `studio`, or `logs [--server-mac] [--device-android]`.
//! `-h`/`--help` asks for help anywhere, `-V`/`--version` for the version
//! before the command, and `saab help [COMMAND]` asks for help too.

use vstd::prelude::*;

verus! {

/// A command of the tool.
#[derive(Debug, Clone, Copy, PartialEq, Eq, Structural)]
pub enum Commands {
    /// Interactive configuration wizard.
    Configure,
    /// Start the capture server and the Android receiver.
    Start,
    /// Stop all streaming services.
    Stop,
    /// Show the services' status.
    Status,
    /// Stream the logs of the server, or of the Android receiver.
    Logs { server_mac: bool, device_android: bool },
    /// Launch the studio console.
    Studio,
}

/// A parsed command line.
#[derive(Debug, Clone, Copy, PartialEq, Eq, Structural)]
pub struct Cli {
    pub command: Commands,
}

/// Why a command line yields no command. Positions count the program name
/// as argument 0.
#[derive(Debug, Clone, Copy, PartialEq, Eq, Structural)]
pub enum CliError {
    /// Help was asked for.
    DisplayHelp,
    /// The version was asked for.
    DisplayVersion,
    /// No command was given.
    MissingSubcommand,
    /// The argument at this position names no command.
    InvalidSubcommand(usize),
    /// The argument at this position is not expected there.
    UnknownArgument(usize),
    /// The flag at this position was already given.
    ArgumentConflict(usize),
}

/// The command named `t`, with its flags off.
pub open spec fn command_named(t: Seq<char>) -> Option<Commands> {
    if t == "configure"@ {
        Some(Commands::Configure)
    } else if t == "start"@ {
        Some(Commands::Start)
    } else if t == "stop"@ {
        Some(Commands::Stop)
    } else if t == "status"@ {
        Some(Commands::Status)
    } else if t == "logs"@ {
        Some(Commands::Logs { server_mac: false, device_android: false })
    } else if t == "studio"@ {
        Some(Commands::Studio)
    } else {
        None
    }
}

/// `-h` or `--help`.
pub open spec fn is_help_flag(t: Seq<char>) -> bool {
    t == "-h"@ || t == "--help"@
}

/// `-V` or `--version`.
pub open spec fn is_version_flag(t: Seq<char>) -> bool {
    t == "-V"@ || t == "--version"@
}

/// An argument that looks like an option: a `-` followed by more.
pub open spec fn is_option_like(t: Seq<char>) -> bool {
    t.len() > 1 && t[0] == '-'
}

/// The error for an argument at position `i` that does not belong there.
pub open spec fn unexpected(args: Seq<Seq<char>>, i: int) -> CliError {
    if is_option_like(args[i]) {
        CliError::UnknownArgument(i as usize)
    } else {
        CliError::InvalidSubcommand(i as usize)
    }
}

/// `command` with the `logs` flags set as given.
pub open spec fn with_flags(command: Commands, server_mac: bool, device_android: bool) -> Commands {
    match command {
        Commands::Logs { .. } => Commands::Logs { server_mac, device_android },
        _ => command,
    }
}

/// The arguments from position `i` on, after `command`, with the `logs`
/// flags seen so far.
pub open spec fn parse_command_args(
    command: Commands,
    args: Seq<Seq<char>>,
    i: int,
    server_mac: bool,
    device_android: bool,
) -> Result<Commands, CliError>
    decreases args.len() - i,
{
    if i >= args.len() {
        Ok(with_flags(command, server_mac, device_android))
    } else if is_help_flag(args[i]) {
        Err(CliError::DisplayHelp)
    } else if command is Logs && args[i] == "--server-mac"@ {
        if server_mac {
            Err(CliError::ArgumentConflict(i as usize))
        } else {
            parse_command_args(command, args, i + 1, true, device_android)
        }
    } else if command is Logs && args[i] == "--device-android"@ {
        if device_android {
            Err(CliError::ArgumentConflict(i as usize))
        } else {
            parse_command_args(command, args, i + 1, server_mac, true)
        }
    } else {
        Err(CliError::UnknownArgument(i as usize))
    }
}

/// `help` followed by the arguments from position `i` on: at most one
/// argument, naming a command (or `help`).
pub open spec fn parse_help_args(args: Seq<Seq<char>>, i: int) -> Result<Commands, CliError> {
    if i >= args.len() {
        Err(CliError::DisplayHelp)
    } else if command_named(args[i]) is Some || args[i] == "help"@ {
        if i + 1 >= args.len() {
            Err(CliError::DisplayHelp)
        } else {
            Err(unexpected(args, i + 1))
        }
    } else {
        Err(unexpected(args, i))
    }
}

/// The command that the arguments (program name first) give, or why none.
pub open spec fn parse_command_line(args: Seq<Seq<char>>) -> Result<Commands, CliError> {
    if args.len() < 2 {
        Err(CliError::MissingSubcommand)
    } else if is_help_flag(args[1]) {
        Err(CliError::DisplayHelp)
    } else if is_version_flag(args[1]) {
        Err(CliError::DisplayVersion)
    } else if args[1] == "help"@ {
        parse_help_args(args, 2)
    } else {
        match command_named(args[1]) {
            Some(command) => parse_command_args(command, args, 2, false, false),
            None => Err(unexpected(args, 1)),
        }
    }
}

/// The texts of the arguments.
pub open spec fn arg_texts(args: Seq<&str>) -> Seq<Seq<char>> {
    args.map_values(|a: &str| a@)
}

/// Whether two texts are the same.
pub(crate) fn same_text(a: &str, b: &str) -> (r: bool)
    ensures
        r == (a@ == b@),
{
    let n = a.unicode_len();
    let m = b.unicode_len();
    if n != m {
        return false;
    }
    let mut i: usize = 0;
    while i < n
        invariant
            n == a@.len(),
            m == b@.len(),
            n == m,
            i <= n,
            forall|j: int| 0 <= j < i ==> a@[j] == b@[j],
        decreases n - i,
    {
        if a.get_char(i) != b.get_char(i) {
            return false;
        }
        i = i + 1;
    }
    assert(a@ =~= b@);
    true
}

fn help_flag(t: &str) -> (r: bool)
    ensures
        r == is_help_flag(t@),
{
    same_text(t, "-h") || same_text(t, "--help")
}

fn version_flag(t: &str) -> (r: bool)
    ensures
        r == is_version_flag(t@),
{
    same_text(t, "-V") || same_text(t, "--version")
}

fn option_like(t: &str) -> (r: bool)
    ensures
        r == is_option_like(t@),
{
    let n = t.unicode_len();
    n > 1 && t.get_char(0) == '-'
}

fn command_for(t: &str) -> (r: Option<Commands>)
    ensures
        r == command_named(t@),
{
    if same_text(t, "configure") {
        Some(Commands::Configure)
    } else if same_text(t, "start") {
        Some(Commands::Start)
    } else if same_text(t, "stop") {
        Some(Commands::Stop)
    } else if same_text(t, "status") {
        Some(Commands::Status)
    } else if same_text(t, "logs") {
        Some(Commands::Logs { server_mac: false, device_android: false })
    } else if same_text(t, "studio") {
        Some(Commands::Studio)
    } else {
        None
    }
}

fn unexpected_at(args: &[&str], i: usize) -> (e: CliError)
    requires
        i < args@.len(),
    ensures
        e == unexpected(arg_texts(args@), i as int),
{
    if option_like(args[i]) {
        CliError::UnknownArgument(i)
    } else {
        CliError::InvalidSubcommand(i)
    }
}

impl Cli {
    /// Parses the arguments, the program name first.
    pub fn try_parse_from(args: &[&str]) -> (r: Result<Cli, CliError>)
        ensures
            match r {
                Ok(cli) => parse_command_line(arg_texts(args@)) == Ok::<Commands, CliError>(
                    cli.command,
                ),
                Err(e) => parse_command_line(arg_texts(args@)) == Err::<Commands, CliError>(e),
            },
    {
        let ghost v = arg_texts(args@);
        let n = args.len();
        if n < 2 {
            return Err(CliError::MissingSubcommand);
        }
        let first = args[1];
        if help_flag(first) {
            return Err(CliError::DisplayHelp);
        }
        if version_flag(first) {
            return Err(CliError::DisplayVersion);
        }
        if same_text(first, "help") {
            if n <= 2 {
                return Err(CliError::DisplayHelp);
            }
            let named = args[2];
            if command_for(named).is_some() || same_text(named, "help") {
                if n <= 3 {
                    return Err(CliError::DisplayHelp);
                }
                return Err(unexpected_at(args, 3));
            }
            return Err(unexpected_at(args, 2));
        }
        let command = match command_for(first) {
            Some(c) => c,
            None => {
                return Err(unexpected_at(args, 1));
            },
        };
        let is_logs = match command {
            Commands::Logs { .. } => true,
            _ => false,
        };
        let mut server_mac = false;
        let mut device_android = false;
        let mut i: usize = 2;
        while i < n
            invariant
                n == args@.len(),
                v == arg_texts(args@),
                2 <= i <= n,
                is_logs == (command is Logs),
                command_named(v[1]) == Some(command),
                parse_command_line(v) == parse_command_args(
                    command,
                    v,
                    i as int,
                    server_mac,
                    device_android,
                ),
            decreases n - i,
        {
            let t = args[i];
            if help_flag(t) {
                return Err(CliError::DisplayHelp);
            }
            if is_logs && same_text(t, "--server-mac") {
                if server_mac {
                    return Err(CliError::ArgumentConflict(i));
                }
                server_mac = true;
            } else if is_logs && same_text(t, "--device-android") {
                if device_android {
                    return Err(CliError::ArgumentConflict(i));
                }
                device_android = true;
            } else {
                return Err(CliError::UnknownArgument(i));
            }
            i = i + 1;
        }
        let command = if is_logs {
            Commands::Logs { server_mac, device_android }
        } else {
            command
        };
        Ok(Cli { command })
    }
}

/// Either version flag right after the program name asks for the version,
/// whatever follows; likewise either help flag asks for help.
pub proof fn lemma_flags_before_command(program: Seq<char>, rest: Seq<Seq<char>>)
    ensures
        parse_command_line(seq![program, "-V"@] + rest) == Err::<Commands, CliError>(
            CliError::DisplayVersion,
        ),
        parse_command_line(seq![program, "--version"@] + rest) == Err::<Commands, CliError>(
            CliError::DisplayVersion,
        ),
        parse_command_line(seq![program, "-h"@] + rest) == Err::<Commands, CliError>(
            CliError::DisplayHelp,
        ),
        parse_command_line(seq![program, "--help"@] + rest) == Err::<Commands, CliError>(
            CliError::DisplayHelp,
        ),
{
    reveal_strlit("-V");
    reveal_strlit("--version");
    reveal_strlit("-h");
    reveal_strlit("--help");
    assert((seq![program, "-V"@] + rest)[1] == "-V"@);
    assert((seq![program, "--version"@] + rest)[1] == "--version"@);
    assert((seq![program, "-h"@] + rest)[1] == "-h"@);
    assert((seq![program, "--help"@] + rest)[1] == "--help"@);
    assert("-V"@ != "-h"@) by {
        assert("-V"@[1] != "-h"@[1]);
    }
    assert("--version"@ != "--help"@) by {
        assert("--version"@.len() != "--help"@.len());
    }
    assert("--version"@ != "-h"@) by {
        assert("--version"@.len() != "-h"@.len());
    }
    assert("-V"@ != "--help"@) by {
        assert("-V"@.len() != "--help"@.len());
    }
}

} // verus!
