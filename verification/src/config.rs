//! The device configuration: its parts, their defaults, and the checks a
//! configuration must pass before it is kept.
use vstd::prelude::*;
use crate::text::{
    contains_seq, contains_text, all_hex_digits, all_hex_digits_exec, chars_of, is_white_space, is_white_space_exec, owned,
    same_text, slice_range, trimmed, decimal, push_decimal, push_text, string_of,
};

use crate::discovery::texts;

verus! {

pub const MAX_MACROS_PER_DEVICE: usize = 25;

pub const MAX_STEPS_PER_MACRO: usize = 10;

pub const MAX_KEYS_PER_STEP: usize = 10;

pub const MIN_STEP_DELAY: u32 = 50;

pub const MAX_STEP_DELAY: u32 = 2000;

/// A host that can be woken over the network.
pub struct WakeOnLanDevice {
    pub name: String,
    pub mac_address: String,
}

/// One step of a keyboard macro: keys and modifiers held together, then a
/// pause in milliseconds.
pub struct KeyboardMacroStep {
    pub keys: Vec<String>,
    pub modifiers: Vec<String>,
    pub delay: u32,
}

/// A named keyboard macro.
pub struct KeyboardMacro {
    pub id: String,
    pub name: String,
    pub steps: Vec<KeyboardMacroStep>,
    pub sort_order: Option<u32>,
}

/// Identity the USB gadget presents to the host.
pub struct UsbConfig {
    pub vendor_id: String,
    pub product_id: String,
    pub serial_number: String,
    pub manufacturer: String,
    pub product: String,
}

/// Which USB functions the gadget offers.
#[derive(Debug, Clone, Copy, PartialEq, Eq, Structural)]
pub struct UsbDevices {
    pub absolute_mouse: bool,
    pub relative_mouse: bool,
    pub keyboard: bool,
    pub mass_storage: bool,
}

/// Network settings.
pub struct NetworkConfig {
    pub hostname: Option<String>,
    pub http_proxy: Option<String>,
    pub domain: Option<String>,
    pub ipv4_mode: String,
    pub ipv6_mode: String,
    pub lldp_mode: String,
    pub lldp_tx_tlvs: Vec<String>,
    pub mdns_mode: String,
    pub time_sync_mode: String,
    pub time_sync_ordering: Vec<String>,
    pub time_sync_disable_fallback: bool,
    pub time_sync_parallel: u32,
}

/// The whole device configuration.
pub struct Config {
    pub cloud_url: String,
    pub cloud_app_url: String,
    pub cloud_token: Option<String>,
    pub google_identity: Option<String>,
    pub jiggler_enabled: bool,
    pub auto_update_enabled: bool,
    pub include_pre_release: bool,
    pub hashed_password: Option<String>,
    pub local_auth_token: Option<String>,
    pub local_auth_mode: String,
    pub local_loopback_only: bool,
    pub keyboard_layout: String,
    pub edid_string: Option<String>,
    pub active_extension: Option<String>,
    pub display_rotation: String,
    pub display_max_brightness: u8,
    pub display_dim_after_sec: u32,
    pub display_off_after_sec: u32,
    pub tls_mode: String,
    pub default_log_level: String,
    pub device_id: String,
    pub wake_on_lan_devices: Vec<WakeOnLanDevice>,
    pub keyboard_macros: Vec<KeyboardMacro>,
    pub usb_config: UsbConfig,
    pub usb_devices: UsbDevices,
    pub network_config: NetworkConfig,
    pub audio_enabled: bool,
    pub host_display_disable_when_idle: bool,
}

/// Whether developer mode is on.
#[derive(Debug, Clone, Copy, PartialEq, Eq, Structural)]
pub struct DevModeState {
    pub enabled: bool,
}

/// Why a macro step was refused.
#[derive(Debug, Clone, Copy, PartialEq, Eq, Structural)]
pub enum StepError {
    /// More than [`MAX_KEYS_PER_STEP`] keys.
    TooManyKeys,
}

/// Why a macro was refused.
#[derive(Debug, Clone, Copy, PartialEq, Eq, Structural)]
pub enum MacroError {
    /// The name is empty or white space only.
    EmptyName,
    /// The macro has no step.
    NoSteps,
    /// More than [`MAX_STEPS_PER_MACRO`] steps.
    TooManySteps,
    /// The step at this position (counted from 0) was refused.
    InvalidStep(usize, StepError),
}

/// A problem found in a configuration. The refused value travels with the
/// error where the message names it.
#[derive(Debug, Clone, PartialEq, Eq)]
pub enum ConfigError {
    /// More than [`MAX_MACROS_PER_DEVICE`] macros.
    TooManyMacros,
    /// The macro at this position (counted from 0) was refused.
    InvalidMacro(usize, MacroError),
    /// The display rotation is not 0, 90, 180 or 270.
    InvalidDisplayRotation(String),
    /// The TLS mode is not '', 'self-signed' or 'custom'.
    InvalidTlsMode(String),
    /// The USB vendor id is not 1 to 4 hex digits.
    InvalidVendorId(String),
    /// The USB product id is not 1 to 4 hex digits.
    InvalidProductId(String),
    /// The local auth mode is set but neither 'password' nor 'noPassword'.
    InvalidAuthMode,
}

/// A configuration problem as plain values.
pub enum ConfigErrorView {
    TooManyMacros,
    InvalidMacro(usize, MacroError),
    InvalidDisplayRotation(Seq<char>),
    InvalidTlsMode(Seq<char>),
    InvalidVendorId(Seq<char>),
    InvalidProductId(Seq<char>),
    InvalidAuthMode,
}

impl View for ConfigError {
    type V = ConfigErrorView;

    open spec fn view(&self) -> ConfigErrorView {
        match self {
            ConfigError::TooManyMacros => ConfigErrorView::TooManyMacros,
            ConfigError::InvalidMacro(i, e) => ConfigErrorView::InvalidMacro(*i, *e),
            ConfigError::InvalidDisplayRotation(v) => ConfigErrorView::InvalidDisplayRotation(v@),
            ConfigError::InvalidTlsMode(v) => ConfigErrorView::InvalidTlsMode(v@),
            ConfigError::InvalidVendorId(v) => ConfigErrorView::InvalidVendorId(v@),
            ConfigError::InvalidProductId(v) => ConfigErrorView::InvalidProductId(v@),
            ConfigError::InvalidAuthMode => ConfigErrorView::InvalidAuthMode,
        }
    }
}

/// The views of a list of configuration problems.
pub open spec fn error_views(es: Seq<ConfigError>) -> Seq<ConfigErrorView> {
    es.map_values(|e: ConfigError| e@)
}

/// The message of a refused step.
pub open spec fn step_error_text(e: StepError) -> Seq<char> {
    match e {
        StepError::TooManyKeys => "Too many keys in step (max 10)"@,
    }
}

/// The message of a refused macro; steps are counted from 1.
pub open spec fn macro_error_text(e: MacroError) -> Seq<char> {
    match e {
        MacroError::EmptyName => "Macro name cannot be empty"@,
        MacroError::NoSteps => "Macro must have at least one step"@,
        MacroError::TooManySteps => "Too many steps in macro (max 10)"@,
        MacroError::InvalidStep(i, s) => "Invalid step "@ + decimal((i + 1) as nat) + ": "@
            + step_error_text(s),
    }
}

/// The message of a configuration problem; macros are counted from 1.
pub open spec fn config_error_text(e: ConfigErrorView) -> Seq<char> {
    match e {
        ConfigErrorView::TooManyMacros => "Too many macros (max 25)"@,
        ConfigErrorView::InvalidMacro(i, m) => "Invalid macro "@ + decimal((i + 1) as nat) + ": "@
            + macro_error_text(m),
        ConfigErrorView::InvalidDisplayRotation(v) => "Invalid display rotation '"@ + v
            + "', must be 0/90/180/270"@,
        ConfigErrorView::InvalidTlsMode(v) => "Invalid tls_mode '"@ + v
            + "', must be '', 'self-signed' or 'custom'"@,
        ConfigErrorView::InvalidVendorId(v) => "Invalid USB vendor_id '"@ + v + "'"@,
        ConfigErrorView::InvalidProductId(v) => "Invalid USB product_id '"@ + v + "'"@,
        ConfigErrorView::InvalidAuthMode => "Invalid auth mode, must be 'password' or 'noPassword'"@,
    }
}

fn push_step_error(out: &mut Vec<char>, e: StepError)
    ensures
        final(out)@ == old(out)@ + step_error_text(e),
{
    match e {
        StepError::TooManyKeys => push_text(out, "Too many keys in step (max 10)"),
    }
}

fn push_macro_error(out: &mut Vec<char>, e: MacroError)
    ensures
        final(out)@ == old(out)@ + macro_error_text(e),
{
    let ghost start = out@;
    match e {
        MacroError::EmptyName => push_text(out, "Macro name cannot be empty"),
        MacroError::NoSteps => push_text(out, "Macro must have at least one step"),
        MacroError::TooManySteps => push_text(out, "Too many steps in macro (max 10)"),
        MacroError::InvalidStep(i, s) => {
            push_text(out, "Invalid step ");
            push_decimal(out, (i as u128) + 1);
            push_text(out, ": ");
            push_step_error(out, s);
            assert(out@ =~= start + macro_error_text(e));
        },
    }
}

impl StepError {
    /// The message that reports this refusal.
    pub fn message(&self) -> (r: String)
        ensures
            r@ == step_error_text(*self),
    {
        let mut out: Vec<char> = Vec::new();
        push_step_error(&mut out, *self);
        assert(out@ =~= step_error_text(*self));
        string_of(out.as_slice())
    }
}

impl MacroError {
    /// The message that reports this refusal.
    pub fn message(&self) -> (r: String)
        ensures
            r@ == macro_error_text(*self),
    {
        let mut out: Vec<char> = Vec::new();
        push_macro_error(&mut out, *self);
        assert(out@ =~= macro_error_text(*self));
        string_of(out.as_slice())
    }
}

impl ConfigError {
    /// The message that reports this problem.
    pub fn message(&self) -> (r: String)
        ensures
            r@ == config_error_text(self@),
    {
        let mut out: Vec<char> = Vec::new();
        match self {
            ConfigError::TooManyMacros => push_text(&mut out, "Too many macros (max 25)"),
            ConfigError::InvalidMacro(i, m) => {
                push_text(&mut out, "Invalid macro ");
                push_decimal(&mut out, (*i as u128) + 1);
                push_text(&mut out, ": ");
                push_macro_error(&mut out, *m);
            },
            ConfigError::InvalidDisplayRotation(v) => {
                push_text(&mut out, "Invalid display rotation '");
                push_text(&mut out, v.as_str());
                push_text(&mut out, "', must be 0/90/180/270");
            },
            ConfigError::InvalidTlsMode(v) => {
                push_text(&mut out, "Invalid tls_mode '");
                push_text(&mut out, v.as_str());
                push_text(&mut out, "', must be '', 'self-signed' or 'custom'");
            },
            ConfigError::InvalidVendorId(v) => {
                push_text(&mut out, "Invalid USB vendor_id '");
                push_text(&mut out, v.as_str());
                push_text(&mut out, "'");
            },
            ConfigError::InvalidProductId(v) => {
                push_text(&mut out, "Invalid USB product_id '");
                push_text(&mut out, v.as_str());
                push_text(&mut out, "'");
            },
            ConfigError::InvalidAuthMode => push_text(
                &mut out,
                "Invalid auth mode, must be 'password' or 'noPassword'",
            ),
        }
        assert(out@ =~= config_error_text(self@));
        string_of(out.as_slice())
    }
}

// ---------------------------------------------------------------------------
// Views
// ---------------------------------------------------------------------------
/// A macro step as plain values.
pub struct StepView {
    pub keys: Seq<Seq<char>>,
    pub modifiers: Seq<Seq<char>>,
    pub delay: u32,
}

/// A macro as plain values.
pub struct MacroView {
    pub id: Seq<char>,
    pub name: Seq<char>,
    pub steps: Seq<StepView>,
    pub sort_order: Option<u32>,
}

/// The views of a list of steps.
pub open spec fn step_views(v: Seq<KeyboardMacroStep>) -> Seq<StepView> {
    v.map_values(|s: KeyboardMacroStep| s@)
}

impl View for KeyboardMacroStep {
    type V = StepView;

    open spec fn view(&self) -> StepView {
        StepView { keys: texts(self.keys@), modifiers: texts(self.modifiers@), delay: self.delay }
    }
}

impl View for KeyboardMacro {
    type V = MacroView;

    open spec fn view(&self) -> MacroView {
        MacroView {
            id: self.id@,
            name: self.name@,
            steps: self.steps@.map_values(|s: KeyboardMacroStep| s@),
            sort_order: self.sort_order,
        }
    }
}

/// The views of a list of macros.
pub open spec fn macro_views(v: Seq<KeyboardMacro>) -> Seq<MacroView> {
    v.map_values(|m: KeyboardMacro| m@)
}

// ---------------------------------------------------------------------------
// Specifications of the checks
// ---------------------------------------------------------------------------
/// `delay` moved into `MIN_STEP_DELAY..=MAX_STEP_DELAY`.
pub open spec fn clamp_delay(delay: u32) -> u32 {
    if delay < 50 {
        50
    } else if delay > 2000 {
        2000
    } else {
        delay
    }
}

/// A step with its delay clamped.
pub open spec fn clamped_step(s: StepView) -> StepView {
    StepView { delay: clamp_delay(s.delay), ..s }
}

/// The first step, at or after `i`, with too many keys.
pub open spec fn bad_step_from(steps: Seq<StepView>, i: int) -> Option<int>
    decreases steps.len() - i,
{
    if i < 0 || i >= steps.len() {
        None
    } else if steps[i].keys.len() > 10 {
        Some(i)
    } else {
        bad_step_from(steps, i + 1)
    }
}

/// The steps after a check that stops at `stop`: the steps before it have
/// their delay clamped, the others are unchanged.
pub open spec fn steps_clamped_before(steps: Seq<StepView>, stop: int) -> Seq<StepView> {
    Seq::new(steps.len(), |j: int| if j < stop { clamped_step(steps[j]) } else { steps[j] })
}

/// What checking a macro gives: the macro afterwards and the outcome.
pub open spec fn macro_check(m: MacroView) -> (MacroView, Result<(), MacroError>) {
    if trimmed(m.name).len() == 0 {
        (m, Err(MacroError::EmptyName))
    } else if m.steps.len() == 0 {
        (m, Err(MacroError::NoSteps))
    } else if m.steps.len() > 10 {
        (m, Err(MacroError::TooManySteps))
    } else {
        match bad_step_from(m.steps, 0) {
            Some(i) => (
                MacroView { steps: steps_clamped_before(m.steps, i), ..m },
                Err(MacroError::InvalidStep(i as usize, StepError::TooManyKeys)),
            ),
            None => (
                MacroView { steps: steps_clamped_before(m.steps, m.steps.len() as int), ..m },
                Ok(()),
            ),
        }
    }
}

/// The text of a USB id after its optional `0x`/`0X` prefix.
pub open spec fn usb_id_digits(s: Seq<char>) -> Seq<char> {
    if s.len() >= 2 && s[0] == '0' && (s[1] == 'x' || s[1] == 'X') {
        s.subrange(2, s.len() as int)
    } else {
        s
    }
}

/// A USB vendor or product id: `0x1234`, `0X1234` or bare `1234`, with one
/// to four hex digits and nothing else after the prefix.
pub open spec fn usb_id_valid(s: Seq<char>) -> bool {
    let h = usb_id_digits(s);
    h.len() > 0 && h.len() <= 4 && all_hex_digits(h)
}

/// The rotations a display accepts.
pub open spec fn rotation_valid(s: Seq<char>) -> bool {
    s == "0"@ || s == "90"@ || s == "180"@ || s == "270"@
}

/// The TLS modes a configuration accepts.
pub open spec fn tls_mode_valid(s: Seq<char>) -> bool {
    s == ""@ || s == "self-signed"@ || s == "custom"@
}

/// The local auth modes a configuration accepts, once one is set.
pub open spec fn auth_mode_valid(s: Seq<char>) -> bool {
    s.len() == 0 || s == "password"@ || s == "noPassword"@
}

/// The errors of the macro checks, in order, for the macros from `i` on.
pub open spec fn macro_errors_from(ms: Seq<MacroView>, i: int) -> Seq<ConfigErrorView>
    decreases ms.len() - i,
{
    if i < 0 || i >= ms.len() {
        Seq::empty()
    } else {
        let rest = macro_errors_from(ms, i + 1);
        match macro_check(ms[i]).1 {
            Err(e) => seq![ConfigErrorView::InvalidMacro(i as usize, e)] + rest,
            Ok(()) => rest,
        }
    }
}

/// The errors the checks of single settings report, in order.
pub open spec fn setting_errors(c: &Config) -> Seq<ConfigErrorView> {
    (if rotation_valid(c.display_rotation@) {
        Seq::empty()
    } else {
        seq![ConfigErrorView::InvalidDisplayRotation(c.display_rotation@)]
    }) + (if tls_mode_valid(c.tls_mode@) {
        Seq::empty()
    } else {
        seq![ConfigErrorView::InvalidTlsMode(c.tls_mode@)]
    }) + (if usb_id_valid(c.usb_config.vendor_id@) {
        Seq::empty()
    } else {
        seq![ConfigErrorView::InvalidVendorId(c.usb_config.vendor_id@)]
    }) + (if usb_id_valid(c.usb_config.product_id@) {
        Seq::empty()
    } else {
        seq![ConfigErrorView::InvalidProductId(c.usb_config.product_id@)]
    }) + (if auth_mode_valid(c.local_auth_mode@) {
        Seq::empty()
    } else {
        seq![ConfigErrorView::InvalidAuthMode]
    })
}

/// The errors a configuration check reports, in order.
pub open spec fn config_errors(c: &Config) -> Seq<ConfigErrorView> {
    let ms = macro_views(c.keyboard_macros@);
    (if ms.len() > 25 {
        seq![ConfigErrorView::TooManyMacros]
    } else {
        Seq::empty()
    }) + macro_errors_from(ms, 0) + setting_errors(c)
}

/// `n` moved into `1..=16`.
pub open spec fn clamp_parallel(n: u32) -> u32 {
    if n < 1 {
        1
    } else if n > 16 {
        16
    } else {
        n
    }
}

/// Every part of a configuration but its macros and the number of parallel
/// time sources is the same in `a` and `b`.
pub open spec fn same_settings_except_checked(a: &Config, b: &Config) -> bool {
    &&& a.cloud_url == b.cloud_url
    &&& a.cloud_app_url == b.cloud_app_url
    &&& a.cloud_token == b.cloud_token
    &&& a.google_identity == b.google_identity
    &&& a.jiggler_enabled == b.jiggler_enabled
    &&& a.auto_update_enabled == b.auto_update_enabled
    &&& a.include_pre_release == b.include_pre_release
    &&& a.hashed_password == b.hashed_password
    &&& a.local_auth_token == b.local_auth_token
    &&& a.local_auth_mode == b.local_auth_mode
    &&& a.local_loopback_only == b.local_loopback_only
    &&& a.keyboard_layout == b.keyboard_layout
    &&& a.edid_string == b.edid_string
    &&& a.active_extension == b.active_extension
    &&& a.display_rotation == b.display_rotation
    &&& a.display_max_brightness == b.display_max_brightness
    &&& a.display_dim_after_sec == b.display_dim_after_sec
    &&& a.display_off_after_sec == b.display_off_after_sec
    &&& a.tls_mode == b.tls_mode
    &&& a.default_log_level == b.default_log_level
    &&& a.device_id == b.device_id
    &&& a.wake_on_lan_devices == b.wake_on_lan_devices
    &&& a.usb_config == b.usb_config
    &&& a.usb_devices == b.usb_devices
    &&& a.network_config.hostname == b.network_config.hostname
    &&& a.network_config.http_proxy == b.network_config.http_proxy
    &&& a.network_config.domain == b.network_config.domain
    &&& a.network_config.ipv4_mode == b.network_config.ipv4_mode
    &&& a.network_config.ipv6_mode == b.network_config.ipv6_mode
    &&& a.network_config.lldp_mode == b.network_config.lldp_mode
    &&& a.network_config.lldp_tx_tlvs == b.network_config.lldp_tx_tlvs
    &&& a.network_config.mdns_mode == b.network_config.mdns_mode
    &&& a.network_config.time_sync_mode == b.network_config.time_sync_mode
    &&& a.network_config.time_sync_ordering == b.network_config.time_sync_ordering
    &&& a.network_config.time_sync_disable_fallback
        == b.network_config.time_sync_disable_fallback
    &&& a.audio_enabled == b.audio_enabled
    &&& a.host_display_disable_when_idle == b.host_display_disable_when_idle
}

// ---------------------------------------------------------------------------
// Checks
// ---------------------------------------------------------------------------
impl KeyboardMacroStep {
    /// Refuses a step with more than ten keys; otherwise moves its delay
    /// into 50..=2000 ms.
    pub fn validate(&mut self) -> (r: Result<(), StepError>)
        ensures
            old(self)@.keys.len() > 10 ==> r == Err::<(), StepError>(StepError::TooManyKeys)
                && final(self)@ == old(self)@,
            old(self)@.keys.len() <= 10 ==> r is Ok && final(self)@ == clamped_step(old(self)@),
    {
        if self.keys.len() > MAX_KEYS_PER_STEP {
            return Err(StepError::TooManyKeys);
        }
        self.delay = if self.delay < MIN_STEP_DELAY {
            MIN_STEP_DELAY
        } else if self.delay > MAX_STEP_DELAY {
            MAX_STEP_DELAY
        } else {
            self.delay
        };
        Ok(())
    }
}

/// Whether `s` is empty or white space only.
pub fn is_blank(s: &str) -> (r: bool)
    ensures
        r == (trimmed(s@).len() == 0),
{
    let cs = chars_of(s);
    let t = crate::text::trim_chars(cs.as_slice());
    t.len() == 0
}

impl KeyboardMacro {
    /// Checks a macro: its name must not be blank, it must have one to ten
    /// steps, and each step must pass its own check, which clamps its
    /// delay. Steps are checked in order; the first refused step stops the
    /// check.
    pub fn validate(&mut self) -> (r: Result<(), MacroError>)
        ensures
            (final(self)@, r) == macro_check(old(self)@),
    {
        if is_blank(self.name.as_str()) {
            return Err(MacroError::EmptyName);
        }
        if self.steps.len() == 0 {
            return Err(MacroError::NoSteps);
        }
        if self.steps.len() > MAX_STEPS_PER_MACRO {
            return Err(MacroError::TooManySteps);
        }
        let ghost old_steps = self.steps@.map_values(|s: KeyboardMacroStep| s@);
        let n = self.steps.len();
        let mut rest: Vec<KeyboardMacroStep> = Vec::new();
        std::mem::swap(&mut rest, &mut self.steps);
        let mut done: Vec<KeyboardMacroStep> = Vec::new();
        let mut failed: Option<usize> = None;
        let mut i: usize = 0;
        while i < n
            invariant
                n == old_steps.len(),
                i <= n,
                rest@.len() == n - i,
                done@.len() == i,
                forall|j: int| 0 <= j < n - i ==> (#[trigger] rest@[j])@ == old_steps[j + i],
                failed is None ==> bad_step_from(old_steps, 0) == bad_step_from(
                    old_steps,
                    i as int,
                ),
                failed matches Some(f) ==> f < i && bad_step_from(old_steps, 0) == Some(
                    f as int,
                ),
                forall|j: int|
                    0 <= j < i ==> (#[trigger] done@[j])@ == (if failed matches Some(f) && f
                        <= j {
                        old_steps[j]
                    } else {
                        clamped_step(old_steps[j])
                    }),
            decreases n - i,
        {
            let mut step = rest.remove(0);
            if failed.is_none() {
                match step.validate() {
                    Ok(()) => {},
                    Err(_) => {
                        failed = Some(i);
                    },
                }
            }
            done.push(step);
            i = i + 1;
        }
        self.steps = done;
        proof {
            let stop = match failed {
                Some(f) => f as int,
                None => n as int,
            };
            assert(self.steps@.map_values(|s: KeyboardMacroStep| s@) =~= steps_clamped_before(
                old_steps,
                stop,
            ));
        }
        match failed {
            Some(f) => Err(MacroError::InvalidStep(f, StepError::TooManyKeys)),
            None => Ok(()),
        }
    }
}

/// Accepts a USB vendor/product id as `0x1234` or bare `1234` hex (1-4
/// digits).
pub fn is_valid_usb_id(s: &str) -> (r: bool)
    ensures
        r == usb_id_valid(s@),
{
    let cs = chars_of(s);
    let start: usize = if cs.len() >= 2 && cs[0] == '0' && (cs[1] == 'x' || cs[1] == 'X') {
        2
    } else {
        0
    };
    let h = slice_range(cs.as_slice(), start, cs.len());
    assert(h@ == usb_id_digits(s@));
    if h.len() == 0 || h.len() > 4 {
        return false;
    }
    all_hex_digits_exec(h.as_slice())
}

fn is_one_of4(s: &str, a: &str, b: &str, c: &str, d: &str) -> (r: bool)
    ensures
        r == (s@ == a@ || s@ == b@ || s@ == c@ || s@ == d@),
{
    same_text(s, a) || same_text(s, b) || same_text(s, c) || same_text(s, d)
}

fn push_error(errors: &mut Vec<ConfigError>, e: ConfigError)
    ensures
        error_views(final(errors)@) == error_views(old(errors)@).push(e@),
{
    let ghost v = e@;
    errors.push(e);
    assert(error_views(errors@) =~= error_views(old(errors)@).push(v));
}

impl Config {
    /// Checks the configuration and reports every problem found, in order:
    /// too many macros, each refused macro (every macro is checked, which
    /// clamps step delays), then the display rotation, the TLS mode, the
    /// USB vendor and product ids, and the local auth mode. The number of
    /// parallel time sources is moved into 1..=16 in any case.
    #[verifier::spinoff_prover]
    #[verifier::rlimit(60)]
    pub fn validate(&mut self) -> (r: Result<(), Vec<ConfigError>>)
        ensures
            same_settings_except_checked(old(self), final(self)),
            macro_views(final(self).keyboard_macros@) == macro_views(
                old(self).keyboard_macros@,
            ).map_values(|m: MacroView| macro_check(m).0),
            final(self).network_config.time_sync_parallel == clamp_parallel(
                old(self).network_config.time_sync_parallel,
            ),
            match r {
                Ok(()) => config_errors(old(self)).len() == 0,
                Err(es) => error_views(es@) == config_errors(old(self)) && es@.len() > 0,
            },
    {
        let ghost before = macro_views(self.keyboard_macros@);
        let mut errors: Vec<ConfigError> = Vec::new();
        if self.keyboard_macros.len() > MAX_MACROS_PER_DEVICE {
            errors.push(ConfigError::TooManyMacros);
        }
        let ghost head = error_views(errors@);
        let n = self.keyboard_macros.len();
        let mut rest: Vec<KeyboardMacro> = Vec::new();
        std::mem::swap(&mut rest, &mut self.keyboard_macros);
        let mut done: Vec<KeyboardMacro> = Vec::new();
        let mut i: usize = 0;
        while i < n
            invariant
                n == before.len(),
                i <= n,
                rest@.len() == n - i,
                done@.len() == i,
                forall|j: int| 0 <= j < n - i ==> (#[trigger] rest@[j])@ == before[j + i],
                forall|j: int| 0 <= j < i ==> (#[trigger] done@[j])@ == macro_check(before[j]).0,
                error_views(errors@) + macro_errors_from(before, i as int) == head
                    + macro_errors_from(before, 0),
            decreases n - i,
        {
            let mut m = rest.remove(0);
            let res = m.validate();
            proof {
                assert(m@ == macro_check(before[i as int]).0);
            }
            let ghost prev = errors@;
            match res {
                Ok(()) => {},
                Err(e) => {
                    errors.push(ConfigError::InvalidMacro(i, e));
                    assert(error_views(errors@) =~= error_views(prev).push(
                        ConfigErrorView::InvalidMacro(i, e),
                    ));
                },
            }
            proof {
                let ghost e_now = macro_errors_from(before, i as int);
                assert(e_now == match macro_check(before[i as int]).1 {
                    Err(e) => seq![ConfigErrorView::InvalidMacro(i as usize, e)]
                        + macro_errors_from(before, i + 1),
                    Ok(()) => macro_errors_from(before, i + 1),
                });
            }
            done.push(m);
            i = i + 1;
            proof {
                assert(error_views(errors@) + macro_errors_from(before, i as int) =~= head
                    + macro_errors_from(before, 0));
            }
        }
        self.keyboard_macros = done;
        proof {
            assert(macro_errors_from(before, n as int) =~= Seq::empty());
            assert(macro_views(self.keyboard_macros@) =~= before.map_values(
                |m: MacroView| macro_check(m).0,
            ));
        }
        self.push_setting_errors(&mut errors);
        let p = self.network_config.time_sync_parallel;
        self.network_config.time_sync_parallel = if p < 1 {
            1
        } else if p > 16 {
            16
        } else {
            p
        };
        assert(error_views(errors@) =~= config_errors(old(self)));
        if errors.len() == 0 {
            Ok(())
        } else {
            Err(errors)
        }
    }

    fn push_setting_errors(&self, errors: &mut Vec<ConfigError>)
        ensures
            error_views(final(errors)@) == error_views(old(errors)@) + setting_errors(self),
    {
        let ghost start = error_views(errors@);
        if !is_one_of4(self.display_rotation.as_str(), "0", "90", "180", "270") {
            push_error(errors, ConfigError::InvalidDisplayRotation(owned(self.display_rotation.as_str())));
        }
        let ghost e1 = error_views(errors@);
        if !(same_text(self.tls_mode.as_str(), "") || same_text(self.tls_mode.as_str(), "self-signed")
            || same_text(self.tls_mode.as_str(), "custom")) {
            push_error(errors, ConfigError::InvalidTlsMode(owned(self.tls_mode.as_str())));
        }
        let ghost e2 = error_views(errors@);
        if !is_valid_usb_id(self.usb_config.vendor_id.as_str()) {
            push_error(errors, ConfigError::InvalidVendorId(owned(self.usb_config.vendor_id.as_str())));
        }
        let ghost e3 = error_views(errors@);
        if !is_valid_usb_id(self.usb_config.product_id.as_str()) {
            push_error(errors, ConfigError::InvalidProductId(owned(self.usb_config.product_id.as_str())));
        }
        let ghost e4 = error_views(errors@);
        if self.local_auth_mode.as_str().unicode_len() != 0 && !(same_text(
            self.local_auth_mode.as_str(),
            "password",
        ) || same_text(self.local_auth_mode.as_str(), "noPassword")) {
            push_error(errors, ConfigError::InvalidAuthMode);
        }
        assert(error_views(errors@) =~= start + setting_errors(self));
    }

    /// Whether the device still needs its first-time setup: no local auth
    /// mode has been chosen yet.
    pub fn is_setup_required(&self) -> (r: bool)
        ensures
            r == (self.local_auth_mode@.len() == 0),
    {
        self.local_auth_mode.as_str().unicode_len() == 0
    }
}

// ---------------------------------------------------------------------------
// Defaults
// ---------------------------------------------------------------------------
pub fn default_ipv4_mode() -> (r: String)
    ensures
        r@ == "dhcp"@,
{
    owned("dhcp")
}

pub fn default_ipv6_mode() -> (r: String)
    ensures
        r@ == "slaac"@,
{
    owned("slaac")
}

pub fn default_lldp_mode() -> (r: String)
    ensures
        r@ == "basic"@,
{
    owned("basic")
}

pub fn default_mdns_mode() -> (r: String)
    ensures
        r@ == "auto"@,
{
    owned("auto")
}

pub fn default_time_sync_mode() -> (r: String)
    ensures
        r@ == "ntp_and_http"@,
{
    owned("ntp_and_http")
}

pub fn default_time_sync_parallel() -> (r: u32)
    ensures
        r == 4,
{
    4
}

pub fn default_cloud_url() -> (r: String)
    ensures
        r@ == "https://api.rustkvm.com"@,
{
    owned("https://api.rustkvm.com")
}

pub fn default_cloud_app_url() -> (r: String)
    ensures
        r@ == "https://app.rustkvm.com"@,
{
    owned("https://app.rustkvm.com")
}

pub fn default_log_level() -> (r: String)
    ensures
        r@ == "INFO"@,
{
    owned("INFO")
}

pub fn default_true() -> (r: bool)
    ensures
        r,
{
    true
}

impl Default for UsbConfig {
    fn default() -> (r: Self)
        ensures
            r.vendor_id@ == "0x1d6b"@,
            r.product_id@ == "0x0104"@,
            r.serial_number@.len() == 0,
            r.manufacturer@ == "RustKVM"@,
            r.product@ == "USB Emulation Device"@,
    {
        UsbConfig {
            vendor_id: owned("0x1d6b"),
            product_id: owned("0x0104"),
            serial_number: String::new(),
            manufacturer: owned("RustKVM"),
            product: owned("USB Emulation Device"),
        }
    }
}

impl Default for UsbDevices {
    fn default() -> (r: Self)
        ensures
            r.absolute_mouse && r.relative_mouse && r.keyboard && r.mass_storage,
    {
        UsbDevices { absolute_mouse: true, relative_mouse: true, keyboard: true, mass_storage: true }
    }
}

impl Default for NetworkConfig {
    fn default() -> (r: Self)
        ensures
            r.hostname is None,
            r.http_proxy is None,
            r.domain is None,
            r.ipv4_mode@ == "dhcp"@,
            r.ipv6_mode@ == "slaac"@,
            r.lldp_mode@ == "basic"@,
            texts(r.lldp_tx_tlvs@) == seq!["chassis"@, "port"@, "system"@, "vlan"@],
            r.mdns_mode@ == "auto"@,
            r.time_sync_mode@ == "ntp_and_http"@,
            texts(r.time_sync_ordering@) == seq!["ntp"@, "http"@],
            !r.time_sync_disable_fallback,
            r.time_sync_parallel == 4,
    {
        let lldp_tx_tlvs = vec![owned("chassis"), owned("port"), owned("system"), owned("vlan")];
        let time_sync_ordering = vec![owned("ntp"), owned("http")];
        let r = NetworkConfig {
            hostname: None,
            http_proxy: None,
            domain: None,
            ipv4_mode: default_ipv4_mode(),
            ipv6_mode: default_ipv6_mode(),
            lldp_mode: default_lldp_mode(),
            lldp_tx_tlvs,
            mdns_mode: default_mdns_mode(),
            time_sync_mode: default_time_sync_mode(),
            time_sync_ordering,
            time_sync_disable_fallback: false,
            time_sync_parallel: default_time_sync_parallel(),
        };
        assert(texts(r.lldp_tx_tlvs@) =~= seq!["chassis"@, "port"@, "system"@, "vlan"@]);
        assert(texts(r.time_sync_ordering@) =~= seq!["ntp"@, "http"@]);
        r
    }
}

impl Config {
    /// The configuration of a device that has never been set up, for the
    /// device with id `device_id`.
    pub fn defaults(device_id: String) -> (r: Config)
        ensures
            r.cloud_url@ == "https://api.rustkvm.com"@,
            r.cloud_app_url@ == "https://app.rustkvm.com"@,
            r.cloud_token is None,
            r.google_identity is None,
            !r.jiggler_enabled,
            r.auto_update_enabled,
            !r.include_pre_release,
            r.hashed_password is None,
            r.local_auth_token is None,
            r.local_auth_mode@.len() == 0,
            !r.local_loopback_only,
            r.keyboard_layout@ == "en_US"@,
            r.edid_string is None,
            r.active_extension is None,
            r.display_rotation@ == "270"@,
            r.display_max_brightness == 64,
            r.display_dim_after_sec == 120,
            r.display_off_after_sec == 1800,
            r.tls_mode@.len() == 0,
            r.default_log_level@ == "INFO"@,
            r.device_id@ == device_id@,
            r.wake_on_lan_devices@.len() == 0,
            r.keyboard_macros@.len() == 0,
            r.usb_config.vendor_id@ == "0x1d6b"@,
            r.usb_config.product_id@ == "0x0104"@,
            r.usb_config.serial_number@.len() == 0,
            r.usb_config.manufacturer@ == "RustKVM"@,
            r.usb_config.product@ == "USB Emulation Device"@,
            r.usb_devices.absolute_mouse && r.usb_devices.relative_mouse && r.usb_devices.keyboard
                && r.usb_devices.mass_storage,
            r.network_config.ipv4_mode@ == "dhcp"@,
            r.network_config.time_sync_parallel == 4,
            r.audio_enabled,
            !r.host_display_disable_when_idle,
    {
        Config {
            cloud_url: default_cloud_url(),
            cloud_app_url: default_cloud_app_url(),
            cloud_token: None,
            google_identity: None,
            jiggler_enabled: false,
            auto_update_enabled: true,
            include_pre_release: false,
            hashed_password: None,
            local_auth_token: None,
            local_auth_mode: String::new(),
            local_loopback_only: false,
            keyboard_layout: owned("en_US"),
            edid_string: None,
            active_extension: None,
            display_rotation: owned("270"),
            display_max_brightness: 64,
            display_dim_after_sec: 120,
            display_off_after_sec: 1800,
            tls_mode: String::new(),
            default_log_level: default_log_level(),
            device_id,
            wake_on_lan_devices: Vec::new(),
            keyboard_macros: Vec::new(),
            usb_config: UsbConfig::default(),
            usb_devices: UsbDevices::default(),
            network_config: NetworkConfig::default(),
            audio_enabled: default_true(),
            host_display_disable_when_idle: false,
        }
    }
}

/// Where the configuration file lives by default.
pub const DEFAULT_CONFIG_PATH: &'static str = "/userdata/rustkvm/config.toml";

/// Where the configuration is kept on disk.
pub struct ConfigPersistence {
    config_path: String,
}

impl ConfigPersistence {
    /// The path this store reads and writes.
    pub closed spec fn spec_path(&self) -> Seq<char> {
        self.config_path@
    }

    /// The store at the default path.
    pub fn new() -> (r: Self)
        ensures
            r.spec_path() == DEFAULT_CONFIG_PATH@,
    {
        ConfigPersistence { config_path: owned(DEFAULT_CONFIG_PATH) }
    }

    /// The store at `path`.
    pub fn with_path(path: &str) -> (r: Self)
        ensures
            r.spec_path() == path@,
    {
        ConfigPersistence { config_path: owned(path) }
    }

    /// The path of the configuration file.
    pub fn path(&self) -> (r: &str)
        ensures
            r@ == self.spec_path(),
    {
        self.config_path.as_str()
    }
}

impl Default for ConfigPersistence {
    fn default() -> (r: Self)
        ensures
            r.spec_path() == DEFAULT_CONFIG_PATH@,
    {
        Self::new()
    }
}

// ---------------------------------------------------------------------------
// Laws of the checks
// ---------------------------------------------------------------------------
proof fn lemma_bad_step_depends_on_keys(s: Seq<StepView>, t: Seq<StepView>, i: int)
    requires
        s.len() == t.len(),
        forall|j: int| 0 <= j < s.len() ==> (#[trigger] s[j]).keys == t[j].keys,
    ensures
        bad_step_from(s, i) == bad_step_from(t, i),
    decreases s.len() - i,
{
    if 0 <= i < s.len() {
        lemma_bad_step_depends_on_keys(s, t, i + 1);
    }
}

/// Checking a macro a second time changes nothing more and gives the same
/// outcome as the first check.
pub proof fn lemma_macro_check_idempotent(m: MacroView)
    ensures
        macro_check(macro_check(m).0) == macro_check(m),
{
    let stop = match bad_step_from(m.steps, 0) {
        Some(i) => i,
        None => m.steps.len() as int,
    };
    let once = steps_clamped_before(m.steps, stop);
    lemma_bad_step_depends_on_keys(once, m.steps, 0);
    assert(steps_clamped_before(once, stop) =~= once);
}

/// A configuration that has been checked checks the same again: the same
/// errors are reported, and a second check leaves its macros and its number
/// of parallel time sources as they are.
pub proof fn lemma_checked_config_is_stable(before: &Config, after: &Config)
    requires
        same_settings_except_checked(before, after),
        macro_views(after.keyboard_macros@) == macro_views(before.keyboard_macros@).map_values(
            |m: MacroView| macro_check(m).0,
        ),
        after.network_config.time_sync_parallel == clamp_parallel(
            before.network_config.time_sync_parallel,
        ),
    ensures
        config_errors(after) == config_errors(before),
        macro_views(after.keyboard_macros@).map_values(|m: MacroView| macro_check(m).0) == macro_views(
            after.keyboard_macros@,
        ),
        clamp_parallel(after.network_config.time_sync_parallel)
            == after.network_config.time_sync_parallel,
{
    let a = macro_views(before.keyboard_macros@);
    let b = macro_views(after.keyboard_macros@);
    assert(b.len() == a.len());
    assert forall|j: int| 0 <= j < b.len() implies macro_check(#[trigger] b[j]) == macro_check(a[j]) by {
        lemma_macro_check_idempotent(a[j]);
    }
    lemma_macro_errors_agree(a, b, 0);
    assert(b.map_values(|m: MacroView| macro_check(m).0) =~= b);
}

proof fn lemma_macro_errors_agree(a: Seq<MacroView>, b: Seq<MacroView>, i: int)
    requires
        a.len() == b.len(),
        forall|j: int| 0 <= j < b.len() ==> macro_check(#[trigger] b[j]) == macro_check(a[j]),
    ensures
        macro_errors_from(b, i) == macro_errors_from(a, i),
    decreases a.len() - i,
{
    if 0 <= i < a.len() {
        lemma_macro_errors_agree(a, b, i + 1);
        assert(macro_check(b[i]) == macro_check(a[i]));
    }
}

// ---------------------------------------------------------------------------
// Hardware paths
// ---------------------------------------------------------------------------
/// A hardware path whose absence is expected on some boards: the second
/// video device, the version file and the SSH control script.
pub open spec fn optional_hardware_path(path: Seq<char>) -> bool {
    ||| contains_seq(path, "video1"@)
    ||| contains_seq(path, "rustkvm-version"@)
    ||| contains_seq(path, "dropbear.sh"@)
}

/// The warning for a hardware path: none when it exists or is optional,
/// else `Hardware path not found: <path> (<description>)`.
pub fn hardware_path_warning(path: &str, description: &str, present: bool) -> (r: Option<String>)
    ensures
        (present || optional_hardware_path(path@)) ==> r is None,
        !(present || optional_hardware_path(path@)) ==> (r matches Some(m) && m@
            == "Hardware path not found: "@ + path@ + " ("@ + description@ + ")"@),
{
    if present || contains_text(path, "video1") || contains_text(path, "rustkvm-version")
        || contains_text(path, "dropbear.sh") {
        return None;
    }
    let mut m = owned("Hardware path not found: ");
    m.append(path);
    m.append(" (");
    m.append(description);
    m.append(")");
    Some(m)
}

} // verus!
