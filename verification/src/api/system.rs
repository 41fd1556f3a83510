//! System methods: liveness, failsafe mode, logging, serial settings,
//! updates and the power extensions.
use vstd::prelude::*;
use crate::discovery::{opt_text, texts};
use crate::failsafe::FailsafeState;
use crate::jiggler::JigglerConfig;
use crate::mqtt::MqttConfig;
use crate::text::{chars_of, owned, parse_unsigned, parse_unsigned_exec, same_text, trimmed};

verus! {

/// The answer to `ping`.
pub fn ping() -> (r: String)
    ensures
        r@ == "pong"@,
{
    owned("pong")
}

/// Whether failsafe mode is on, and why.
pub struct FailsafeModeResponse {
    pub active: bool,
    pub reason: String,
}

impl Default for FailsafeModeResponse {
    fn default() -> (r: Self)
        ensures
            !r.active,
            r.reason@.len() == 0,
    {
        FailsafeModeResponse { active: false, reason: String::new() }
    }
}

/// The failsafe mode reported: the state's when there is one, off
/// otherwise.
pub fn get_failsafe_mode(state: &Option<FailsafeState>) -> (r: FailsafeModeResponse)
    ensures
        match *state {
            Some(s) => r.active == s.active && r.reason@ == s.reason@,
            None => !r.active && r.reason@.len() == 0,
        },
{
    match state {
        Some(s) => FailsafeModeResponse { active: s.active, reason: owned(s.reason.as_str()) },
        None => FailsafeModeResponse::default(),
    }
}

/// A reboot request.
pub struct RebootParams {
    pub force: bool,
}

/// The arguments of the `reboot` command: `-f` when forced.
pub fn reboot_args(p: &RebootParams) -> (r: Vec<String>)
    ensures
        p.force ==> texts(r@) == seq!["-f"@],
        !p.force ==> r@.len() == 0,
{
    let mut v: Vec<String> = Vec::new();
    if p.force {
        v.push(owned("-f"));
        assert(texts(v@) =~= seq!["-f"@]);
    }
    v
}

/// The versions of the system image and of the application.
pub struct LocalVersionResponse {
    pub system_version: Option<String>,
    pub app_version: String,
}

/// The versions: the application's, and the system's from its version
/// file without surrounding white space (none when it cannot be read).
pub fn get_local_version(app_version: &str, version_file: Option<&str>) -> (r: LocalVersionResponse)
    ensures
        r.app_version@ == app_version@,
        opt_text(r.system_version) == (match version_file {
            Some(t) => Some(trimmed(t@)),
            None => None,
        }),
{
    LocalVersionResponse {
        app_version: owned(app_version),
        system_version: match version_file {
            Some(t) => Some(crate::text::trim_text(t)),
            None => None,
        },
    }
}

/// A log level named in a request.
pub struct LogLevelParams {
    pub level: String,
}

/// The log levels.
#[derive(Debug, Clone, Copy, PartialEq, Eq, Structural)]
pub enum LogLevel {
    Trace,
    Debug,
    Info,
    Warn,
    Error,
}

/// The level a name gives (exact upper-case names only).
pub open spec fn log_level_of(s: Seq<char>) -> Option<LogLevel> {
    if s == "TRACE"@ {
        Some(LogLevel::Trace)
    } else if s == "DEBUG"@ {
        Some(LogLevel::Debug)
    } else if s == "INFO"@ {
        Some(LogLevel::Info)
    } else if s == "WARN"@ {
        Some(LogLevel::Warn)
    } else if s == "ERROR"@ {
        Some(LogLevel::Error)
    } else {
        None
    }
}

/// The level a name gives.
pub fn parse_log_level(s: &str) -> (r: Option<LogLevel>)
    ensures
        r == log_level_of(s@),
{
    if same_text(s, "TRACE") {
        Some(LogLevel::Trace)
    } else if same_text(s, "DEBUG") {
        Some(LogLevel::Debug)
    } else if same_text(s, "INFO") {
        Some(LogLevel::Info)
    } else if same_text(s, "WARN") {
        Some(LogLevel::Warn)
    } else if same_text(s, "ERROR") {
        Some(LogLevel::Error)
    } else {
        None
    }
}

/// Why a system request was refused.
#[derive(Debug, PartialEq, Eq)]
pub enum SystemError {
    InvalidLogLevel(String),
    InvalidBaudRate(String),
    InvalidDataBits(String),
    DataBitsOutOfRange,
    InvalidStopBits(String),
    InvalidParity(String),
}

/// The default log level (`INFO` until one is set).
pub struct LogLevelSetting {
    pub level: String,
}

impl LogLevelSetting {
    /// The setting before any level is set.
    pub fn new() -> (r: Self)
        ensures
            r.level@ == "INFO"@,
    {
        LogLevelSetting { level: owned("INFO") }
    }

    /// The default log level.
    pub fn get_default_log_level(&self) -> (r: String)
        ensures
            r@ == self.level@,
    {
        owned(self.level.as_str())
    }

    /// Sets the default log level; a name that is not a level is refused
    /// and changes nothing.
    pub fn set_default_log_level(&mut self, params: &LogLevelParams) -> (r: Result<LogLevel, SystemError>)
        ensures
            match log_level_of(params.level@) {
                Some(l) => r == Ok::<LogLevel, SystemError>(l) && final(self).level@ == params.level@,
                None => (r matches Err(SystemError::InvalidLogLevel(s)) && s@ == params.level@)
                    && final(self).level@ == old(self).level@,
            },
    {
        match parse_log_level(params.level.as_str()) {
            Some(l) => {
                self.level = owned(params.level.as_str());
                Ok(l)
            },
            None => Err(SystemError::InvalidLogLevel(owned(params.level.as_str()))),
        }
    }
}

/// The level at which the test message is logged.
pub fn emit_test_log(params: &LogLevelParams) -> (r: Result<LogLevel, SystemError>)
    ensures
        match log_level_of(params.level@) {
            Some(l) => r == Ok::<LogLevel, SystemError>(l),
            None => r matches Err(SystemError::InvalidLogLevel(s)) && s@ == params.level@,
        },
{
    match parse_log_level(params.level.as_str()) {
        Some(l) => Ok(l),
        None => Err(SystemError::InvalidLogLevel(owned(params.level.as_str()))),
    }
}

/// The time zones offered.
pub open spec fn timezones() -> Seq<Seq<char>> {
    seq![
        "UTC"@,
        "America/New_York"@,
        "America/Chicago"@,
        "America/Denver"@,
        "America/Los_Angeles"@,
        "Europe/London"@,
        "Europe/Paris"@,
        "Europe/Berlin"@,
        "Asia/Tokyo"@,
        "Asia/Shanghai"@,
        "Asia/Singapore"@,
        "Australia/Sydney"@,
        "Pacific/Auckland"@,
    ]
}

/// The time zones offered.
pub fn get_timezones() -> (r: Vec<String>)
    ensures
        texts(r@) == timezones(),
{
    let v = vec![
        owned("UTC"),
        owned("America/New_York"),
        owned("America/Chicago"),
        owned("America/Denver"),
        owned("America/Los_Angeles"),
        owned("Europe/London"),
        owned("Europe/Paris"),
        owned("Europe/Berlin"),
        owned("Asia/Tokyo"),
        owned("Asia/Shanghai"),
        owned("Asia/Singapore"),
        owned("Australia/Sydney"),
        owned("Pacific/Auckland"),
    ];
    assert(texts(v@) =~= timezones());
    v
}

/// An SSH public key to install (empty to remove it).
pub struct SshKeyParam {
    pub ssh_key: String,
}

/// Developer mode on or off.
pub struct DevModeParams {
    pub enabled: bool,
}

/// Serial port settings, as texts.
pub struct SerialSettings {
    pub baud_rate: String,
    pub data_bits: String,
    pub stop_bits: String,
    pub parity: String,
}

/// Serial port settings, as reported.
pub struct SerialSettingsResponse {
    pub baud_rate: String,
    pub data_bits: String,
    pub stop_bits: String,
    pub parity: String,
}

/// The first fault of serial settings: the baud rate must be a `u32`, the
/// data bits a `u8` from 5 to 8, the stop bits 1, 1.5 or 2, the parity one
/// of none, odd, even, mark and space.
pub open spec fn serial_error(s: SerialSettings) -> Option<SystemError> {
    if parse_unsigned(s.baud_rate@, u32::MAX as nat) is None {
        Some(SystemError::InvalidBaudRate(s.baud_rate))
    } else if parse_unsigned(s.data_bits@, u8::MAX as nat) is None {
        Some(SystemError::InvalidDataBits(s.data_bits))
    } else if !(5 <= parse_unsigned(s.data_bits@, u8::MAX as nat).unwrap() <= 8) {
        Some(SystemError::DataBitsOutOfRange)
    } else if !(s.stop_bits@ == "1"@ || s.stop_bits@ == "1.5"@ || s.stop_bits@ == "2"@) {
        Some(SystemError::InvalidStopBits(s.stop_bits))
    } else if !(s.parity@ == "none"@ || s.parity@ == "odd"@ || s.parity@ == "even"@ || s.parity@ == "mark"@
        || s.parity@ == "space"@) {
        Some(SystemError::InvalidParity(s.parity))
    } else {
        None
    }
}

/// The texts named in an error of serial settings.
pub open spec fn error_text(e: SystemError) -> Seq<char> {
    match e {
        SystemError::InvalidLogLevel(s) => s@,
        SystemError::InvalidBaudRate(s) => s@,
        SystemError::InvalidDataBits(s) => s@,
        SystemError::DataBitsOutOfRange => Seq::empty(),
        SystemError::InvalidStopBits(s) => s@,
        SystemError::InvalidParity(s) => s@,
    }
}

/// Checks serial settings: accepted exactly when they have no fault, else
/// refused with the first.
pub fn set_serial_settings(settings: &SerialSettings) -> (r: Result<(), SystemError>)
    ensures
        match serial_error(*settings) {
            None => r is Ok,
            Some(e) => r matches Err(f) && same_variant(e, f) && error_text(e) == error_text(f),
        },
{
    let b = chars_of(settings.baud_rate.as_str());
    if parse_unsigned_exec(b.as_slice(), 0xffff_ffff).is_none() {
        return Err(SystemError::InvalidBaudRate(owned(settings.baud_rate.as_str())));
    }
    let d = chars_of(settings.data_bits.as_str());
    let bits = match parse_unsigned_exec(d.as_slice(), 0xff) {
        Some(n) => n,
        None => {
            return Err(SystemError::InvalidDataBits(owned(settings.data_bits.as_str())));
        },
    };
    if !(5 <= bits && bits <= 8) {
        return Err(SystemError::DataBitsOutOfRange);
    }
    let sb = settings.stop_bits.as_str();
    if !(same_text(sb, "1") || same_text(sb, "1.5") || same_text(sb, "2")) {
        return Err(SystemError::InvalidStopBits(owned(sb)));
    }
    let p = settings.parity.as_str();
    if !(same_text(p, "none") || same_text(p, "odd") || same_text(p, "even") || same_text(p, "mark")
        || same_text(p, "space")) {
        return Err(SystemError::InvalidParity(owned(p)));
    }
    Ok(())
}

/// Two errors of the same kind.
pub open spec fn same_variant(a: SystemError, b: SystemError) -> bool {
    match (a, b) {
        (SystemError::InvalidLogLevel(_), SystemError::InvalidLogLevel(_)) => true,
        (SystemError::InvalidBaudRate(_), SystemError::InvalidBaudRate(_)) => true,
        (SystemError::InvalidDataBits(_), SystemError::InvalidDataBits(_)) => true,
        (SystemError::DataBitsOutOfRange, SystemError::DataBitsOutOfRange) => true,
        (SystemError::InvalidStopBits(_), SystemError::InvalidStopBits(_)) => true,
        (SystemError::InvalidParity(_), SystemError::InvalidParity(_)) => true,
        _ => false,
    }
}

/// The serial settings reported: 115200 baud, 8 data bits, 1 stop bit,
/// no parity.
pub fn get_serial_settings() -> (r: SerialSettingsResponse)
    ensures
        r.baud_rate@ == "115200"@,
        r.data_bits@ == "8"@,
        r.stop_bits@ == "1"@,
        r.parity@ == "none"@,
{
    SerialSettingsResponse {
        baud_rate: owned("115200"),
        data_bits: owned("8"),
        stop_bits: owned("1"),
        parity: owned("none"),
    }
}

/// A command for the serial console.
pub struct CustomCommandParams {
    pub command: String,
}

/// The serial console's command history.
pub struct CommandHistoryParams {
    pub command_history: Vec<String>,
}

/// Whether the terminal is paused.
pub struct TerminalPauseParams {
    pub terminal_paused: bool,
}

/// The update status.
pub struct UpdateStatusResponse {
    pub update_available: bool,
    pub current_version: String,
    pub error: Option<String>,
}

/// The update status: no update available, the running version, no error.
pub fn get_update_status(app_version: &str) -> (r: UpdateStatusResponse)
    ensures
        !r.update_available,
        r.current_version@ == app_version@,
        r.error is None,
{
    UpdateStatusResponse { update_available: false, current_version: owned(app_version), error: None }
}

/// Automatic updates on or off.
pub struct AutoUpdateParams {
    pub enabled: bool,
}

/// Whether an update waits to be applied: never.
pub fn is_update_pending() -> (r: bool)
    ensures
        !r,
{
    false
}

/// The update channel.
pub struct UpdateStatusChannelResponse {
    pub channel: String,
}

/// The update channel: `stable`.
pub fn get_update_status_channel() -> (r: UpdateStatusChannelResponse)
    ensures
        r.channel@ == "stable"@,
{
    UpdateStatusChannelResponse { channel: owned("stable") }
}

/// Pre-release updates on or off.
pub struct DevChannelParams {
    pub enabled: bool,
}

/// DC power on or off.
pub struct SetDcPowerParams {
    pub enabled: bool,
}

/// The DC restore mode.
pub struct DcRestoreParams {
    pub state: i32,
}

/// An ATX action by name.
pub struct AtxPowerActionParams {
    pub action: String,
}

/// The power extension to activate.
pub struct ExtensionParams {
    pub extension_id: String,
}

/// The jiggler on or off.
pub struct JigglerStateParams {
    pub enabled: bool,
}

/// New jiggler settings.
pub struct SetJigglerConfigParams {
    pub jiggler_config: JigglerConfig,
}

/// New MQTT settings.
pub struct SetMqttSettingsParams {
    pub settings: MqttConfig,
}

/// What activating an extension does with the ATX control: unmount it when
/// it was active and another is chosen; mount it when it is chosen.
pub fn atx_extension_change(previous: &str, chosen: &str) -> (r: (bool, bool))
    ensures
        r.0 == (previous@ == crate::power::atx::ATX_EXTENSION_ID@ && previous@ != chosen@),
        r.1 == (chosen@ == crate::power::atx::ATX_EXTENSION_ID@),
{
    let was = same_text(previous, crate::power::atx::ATX_EXTENSION_ID);
    (was && !same_text(previous, chosen), same_text(chosen, crate::power::atx::ATX_EXTENSION_ID))
}

} // verus!
