//! The command line tool's configuration and where it is kept.
//!
//! Paths are held as the bytes the platform encodes them in, so a
//! directory whose name is not UTF-8 is kept as it is. The platform's
//! configuration and cache directories come from `dirs`; where the platform has none, `~/.config`
//! and `~/.cache` stand in. Each path has a form that takes the platform
//! directory as an argument and says exactly what it gives.

use vstd::prelude::*;
use vstd::string::StringExecFns;
use vstd::utf8::encode_utf8;

verus! {

/// Audio capture settings.
#[derive(Debug, Clone, PartialEq)]
pub struct AudioConfig {
    pub device_name: String,
    pub sample_rate: u32,
}

/// Where audio and control traffic go.
#[derive(Debug, Clone, PartialEq)]
pub struct NetworkConfig {
    pub mode: String,
    pub android_ip: String,
    pub audio_port: u16,
    pub ws_port: u16,
}

/// Android debug bridge settings.
#[derive(Debug, Clone, PartialEq)]
pub struct AdbConfig {
    pub target_device: String,
    pub auto_reverse_port: bool,
}

/// The whole configuration.
#[derive(Debug, Clone, PartialEq)]
pub struct SaabConfig {
    pub version: String,
    pub audio: AudioConfig,
    pub network: NetworkConfig,
    pub adb: AdbConfig,
}

/// The configuration used when none is stored: version `1.0`, capture from
/// `BlackHole 16ch` at 48 kHz, Wi-Fi to `127.0.0.1` with audio on port 48480
/// and control on 9001, any attached device with port reversal on.
pub open spec fn is_default_config(c: SaabConfig) -> bool {
    &&& c.version@ == "1.0"@
    &&& c.audio.device_name@ == "BlackHole 16ch"@
    &&& c.audio.sample_rate == 48000
    &&& c.network.mode@ == "wifi"@
    &&& c.network.android_ip@ == "127.0.0.1"@
    &&& c.network.audio_port == 48480
    &&& c.network.ws_port == 9001
    &&& c.adb.target_device@ == "auto"@
    &&& c.adb.auto_reverse_port
}

impl Default for SaabConfig {
    fn default() -> (c: Self)
        ensures
            is_default_config(c),
    {
        SaabConfig {
            version: String::from_str("1.0"),
            audio: AudioConfig {
                device_name: String::from_str("BlackHole 16ch"),
                sample_rate: 48000,
            },
            network: NetworkConfig {
                mode: String::from_str("wifi"),
                android_ip: String::from_str("127.0.0.1"),
                audio_port: 48480,
                ws_port: 9001,
            },
            adb: AdbConfig { target_device: String::from_str("auto"), auto_reverse_port: true },
        }
    }
}

/// The bytes of a name written in the source: its UTF-8 encoding.
pub open spec fn name_bytes(name: &str) -> Seq<u8> {
    encode_utf8(name@)
}

/// `part` appended to the path `base` (both as the platform encodes them),
/// with a `/` between them unless `base` is empty or already ends in one:
/// `PathBuf::push` of a relative part.
pub open spec fn join_path(base: Seq<u8>, part: Seq<u8>) -> Seq<u8> {
    if base.len() > 0 && base.last() != 0x2fu8 {
        base + seq![0x2fu8] + part
    } else {
        base + part
    }
}

/// The platform's directory, or `fallback` where the platform has none.
pub open spec fn dir_or(platform_dir: Option<Vec<u8>>, fallback: Seq<u8>) -> Seq<u8> {
    match platform_dir {
        Some(d) => d@,
        None => fallback,
    }
}

/// The tool's configuration directory: `saab` under the platform's
/// configuration directory.
pub open spec fn config_dir_path(platform_config_dir: Option<Vec<u8>>) -> Seq<u8> {
    join_path(dir_or(platform_config_dir, name_bytes("~/.config")), name_bytes("saab"))
}

/// The tool's cache directory: `saab` under the platform's cache directory.
pub open spec fn cache_dir_path(platform_cache_dir: Option<Vec<u8>>) -> Seq<u8> {
    join_path(dir_or(platform_cache_dir, name_bytes("~/.cache")), name_bytes("saab"))
}

fn join(base: Vec<u8>, part: &str) -> (r: Vec<u8>)
    ensures
        r@ == join_path(base@, name_bytes(part)),
{
    let mut path = base;
    let n = path.len();
    if n > 0 && path[n - 1] != 0x2f {
        path.push(0x2f);
    }
    let tail = part.as_bytes();
    let ghost head = path@;
    path.extend_from_slice(tail);
    assert(path@ =~= head + tail@);
    path
}

fn bytes_of(name: &str) -> (r: Vec<u8>)
    ensures
        r@ == name_bytes(name),
{
    vstd::slice::slice_to_vec(name.as_bytes())
}

/// `dirs::config_dir`, as the bytes the platform encodes the path in
/// (`OsStr::as_encoded_bytes`; on Unix the path's own bytes, UTF-8 or not):
/// the platform's configuration directory of the current user (on Linux
/// `$XDG_CONFIG_HOME` or `$HOME/.config`), or `None` where it has none. It
/// depends on the environment and the platform, so nothing is promised of
/// it.
#[verifier::external_body]
fn platform_config_dir() -> Option<Vec<u8>> {
    match dirs::config_dir() {
        Some(p) => Some(p.into_os_string().into_encoded_bytes()),
        None => None,
    }
}

/// `dirs::cache_dir`, as above: the platform's cache directory of the
/// current user (on Linux `$XDG_CACHE_HOME` or `$HOME/.cache`), or `None`.
/// Nothing is promised of it.
#[verifier::external_body]
fn platform_cache_dir() -> Option<Vec<u8>> {
    match dirs::cache_dir() {
        Some(p) => Some(p.into_os_string().into_encoded_bytes()),
        None => None,
    }
}

impl SaabConfig {
    /// `saab` under the given platform configuration directory (`~/.config`
    /// where there is none).
    pub fn config_dir_under(platform_config_dir: Option<Vec<u8>>) -> (r: Vec<u8>)
        ensures
            r@ == config_dir_path(platform_config_dir),
    {
        let base = match platform_config_dir {
            Some(d) => d,
            None => bytes_of("~/.config"),
        };
        join(base, "saab")
    }

    /// `config.json` in the configuration directory under the given
    /// platform directory.
    pub fn config_file_path_under(platform_config_dir: Option<Vec<u8>>) -> (r: Vec<u8>)
        ensures
            r@ == join_path(config_dir_path(platform_config_dir), name_bytes("config.json")),
    {
        join(Self::config_dir_under(platform_config_dir), "config.json")
    }

    /// `logs` in the configuration directory under the given platform
    /// directory.
    pub fn logs_dir_under(platform_config_dir: Option<Vec<u8>>) -> (r: Vec<u8>)
        ensures
            r@ == join_path(config_dir_path(platform_config_dir), name_bytes("logs")),
    {
        join(Self::config_dir_under(platform_config_dir), "logs")
    }

    /// `pids` in the configuration directory under the given platform
    /// directory.
    pub fn pids_dir_under(platform_config_dir: Option<Vec<u8>>) -> (r: Vec<u8>)
        ensures
            r@ == join_path(config_dir_path(platform_config_dir), name_bytes("pids")),
    {
        join(Self::config_dir_under(platform_config_dir), "pids")
    }

    /// `saab` under the given platform cache directory (`~/.cache` where
    /// there is none).
    pub fn cache_dir_under(platform_cache_dir: Option<Vec<u8>>) -> (r: Vec<u8>)
        ensures
            r@ == cache_dir_path(platform_cache_dir),
    {
        let base = match platform_cache_dir {
            Some(d) => d,
            None => bytes_of("~/.cache"),
        };
        join(base, "saab")
    }

    /// The tool's configuration directory: `saab` under the platform's
    /// configuration directory of the current user, whatever that is.
    pub fn config_dir() -> (r: Vec<u8>)
        ensures
            exists|d: Option<Vec<u8>>| r@ == config_dir_path(d),
    {
        let d = platform_config_dir();
        let ghost g = d;
        let r = Self::config_dir_under(d);
        assert(r@ == config_dir_path(g));
        r
    }

    /// `config.json` in the tool's configuration directory.
    pub fn config_file_path() -> (r: Vec<u8>)
        ensures
            exists|d: Option<Vec<u8>>|
                r@ == join_path(config_dir_path(d), name_bytes("config.json")),
    {
        let d = platform_config_dir();
        let ghost g = d;
        let r = Self::config_file_path_under(d);
        assert(r@ == join_path(config_dir_path(g), name_bytes("config.json")));
        r
    }

    /// `logs` in the tool's configuration directory.
    pub fn logs_dir() -> (r: Vec<u8>)
        ensures
            exists|d: Option<Vec<u8>>| r@ == join_path(config_dir_path(d), name_bytes("logs")),
    {
        let d = platform_config_dir();
        let ghost g = d;
        let r = Self::logs_dir_under(d);
        assert(r@ == join_path(config_dir_path(g), name_bytes("logs")));
        r
    }

    /// `pids` in the tool's configuration directory.
    pub fn pids_dir() -> (r: Vec<u8>)
        ensures
            exists|d: Option<Vec<u8>>| r@ == join_path(config_dir_path(d), name_bytes("pids")),
    {
        let d = platform_config_dir();
        let ghost g = d;
        let r = Self::pids_dir_under(d);
        assert(r@ == join_path(config_dir_path(g), name_bytes("pids")));
        r
    }

    /// The tool's cache directory: `saab` under the platform's cache
    /// directory of the current user, whatever that is.
    pub fn cache_dir() -> (r: Vec<u8>)
        ensures
            exists|d: Option<Vec<u8>>| r@ == cache_dir_path(d),
    {
        let d = platform_cache_dir();
        let ghost g = d;
        let r = Self::cache_dir_under(d);
        assert(r@ == cache_dir_path(g));
        r
    }
}

} // verus!
