//! MQTT integration: settings and their checks, topic names, the commands
//! a broker may send, and when ATX LED states are published.
use vstd::prelude::*;
use vstd::string::*;
use crate::text::{
    chars_of, contains_chars, contains_seq, contains_text, has_char, lower_text, owned, push_char,
    same_text, slice_range, starts_with, starts_with_chars, string_of, to_lower, to_upper,
    trim_text, trimmed, upper_text,
};

use crate::power::AtxState;

verus! {

/// What the password field shows instead of a stored password.
pub const MQTT_PASSWORD_MASK: &'static str = "********";

/// The base topic used when none is set.
pub const DEFAULT_BASE_TOPIC: &'static str = "rustkvm";

/// The broker port used when none is set.
pub const DEFAULT_MQTT_PORT: u16 = 1883;

/// ATX short press length for MQTT commands, in ms.
pub const MQTT_ATX_SHORT_PRESS_MS: u64 = 200;

/// ATX long press length for MQTT commands, in ms.
pub const MQTT_ATX_LONG_PRESS_MS: u64 = 5000;

/// ATX reset press length for MQTT commands, in ms.
pub const MQTT_ATX_RESET_PRESS_MS: u64 = 500;

/// MQTT settings.
pub struct MqttConfig {
    pub enabled: bool,
    pub broker: String,
    pub port: u16,
    pub username: String,
    pub password: String,
    pub base_topic: String,
    pub use_tls: bool,
    pub tls_insecure: bool,
    pub enable_ha_discovery: bool,
    pub enable_actions: bool,
    pub debounce_ms: u64,
}

/// Why MQTT settings or a base topic were refused.
#[derive(Debug, Clone, Copy, PartialEq, Eq, Structural)]
pub enum MqttConfigError {
    /// MQTT is enabled but no broker is set.
    BrokerRequired,
    /// The port is 0.
    InvalidPort,
    /// The base topic holds `+` or `#`.
    TopicWildcard,
    /// The base topic holds a space.
    TopicSpace,
    /// The base topic is empty.
    TopicEmpty,
    /// MQTT is not enabled.
    NotEnabled,
}

/// The retained availability payload.
#[derive(Debug, Clone, Copy, PartialEq, Eq, Structural)]
pub struct MqttStatusPayload {
    pub online: bool,
}

/// USB state payload.
pub struct MqttUsbState {
    pub state: String,
}

/// Cloud connection payload.
#[derive(Debug, Clone, Copy, PartialEq, Eq, Structural)]
pub struct MqttCloudState {
    pub connected: bool,
}

/// Active WebRTC sessions payload.
#[derive(Debug, Clone, Copy, PartialEq, Eq, Structural)]
pub struct MqttSessionsState {
    pub active_sessions: i32,
}

/// Jiggler payload.
#[derive(Debug, Clone, Copy, PartialEq, Eq, Structural)]
pub struct MqttJigglerState {
    pub enabled: bool,
}

/// Network payload.
pub struct MqttNetworkState {
    pub ip_address: String,
    pub hostname: String,
}

/// Virtual media payload.
pub struct MqttVirtualMediaState {
    pub mounted_image: String,
    pub source: String,
}

/// Connection status answered to the web UI.
pub struct MqttStatusResponse {
    pub connected: bool,
    pub error: Option<String>,
}

/// Outcome of a test connection.
pub struct MqttTestResult {
    pub success: bool,
    pub error: Option<String>,
}

// ---------------------------------------------------------------------------
// Specifications
// ---------------------------------------------------------------------------
/// A base topic holds no wildcard and no space and is not empty.
pub open spec fn topic_error(topic: Seq<char>) -> Option<MqttConfigError> {
    if topic.contains('+') || topic.contains('#') {
        Some(MqttConfigError::TopicWildcard)
    } else if topic.contains(' ') {
        Some(MqttConfigError::TopicSpace)
    } else if topic.len() == 0 {
        Some(MqttConfigError::TopicEmpty)
    } else {
        None
    }
}

/// The first problem of MQTT settings, if any.
pub open spec fn config_error(c: &MqttConfig) -> Option<MqttConfigError> {
    if c.enabled && c.broker@.len() == 0 {
        Some(MqttConfigError::BrokerRequired)
    } else if c.port == 0 {
        Some(MqttConfigError::InvalidPort)
    } else {
        topic_error(c.base_topic@)
    }
}

/// `base` followed by `/part` for each part.
pub open spec fn topic_of(base: Seq<char>, parts: Seq<Seq<char>>) -> Seq<char>
    decreases parts.len(),
{
    if parts.len() == 0 {
        base
    } else {
        topic_of(base, parts.drop_last()) + seq!['/'] + parts.last()
    }
}

/// The texts of a list of string slices.
pub open spec fn str_texts(parts: Seq<&str>) -> Seq<Seq<char>> {
    parts.map_values(|p: &str| p@)
}

// ---------------------------------------------------------------------------
// Settings
// ---------------------------------------------------------------------------
/// The base topic used when none is set.
pub fn default_base_topic() -> (r: String)
    ensures
        r@ == DEFAULT_BASE_TOPIC@,
{
    owned(DEFAULT_BASE_TOPIC)
}

impl Default for MqttConfig {
    fn default() -> (r: Self)
        ensures
            !r.enabled,
            r.broker@.len() == 0,
            r.port == 1883,
            r.username@.len() == 0,
            r.password@.len() == 0,
            r.base_topic@ == DEFAULT_BASE_TOPIC@,
            !r.use_tls,
            !r.tls_insecure,
            r.enable_ha_discovery,
            !r.enable_actions,
            r.debounce_ms == 0,
    {
        MqttConfig {
            enabled: false,
            broker: String::new(),
            port: DEFAULT_MQTT_PORT,
            username: String::new(),
            password: String::new(),
            base_topic: default_base_topic(),
            use_tls: false,
            tls_insecure: false,
            enable_ha_discovery: true,
            enable_actions: false,
            debounce_ms: 0,
        }
    }
}

/// Checks a base topic: no `+` or `#` wildcard, no space, not empty.
pub fn validate_base_topic(topic: &str) -> (r: Result<(), MqttConfigError>)
    ensures
        match topic_error(topic@) {
            Some(e) => r == Err::<(), MqttConfigError>(e),
            None => r is Ok,
        },
{
    let cs = chars_of(topic);
    if has_char(cs.as_slice(), '+') || has_char(cs.as_slice(), '#') {
        return Err(MqttConfigError::TopicWildcard);
    }
    if has_char(cs.as_slice(), ' ') {
        return Err(MqttConfigError::TopicSpace);
    }
    if cs.len() == 0 {
        return Err(MqttConfigError::TopicEmpty);
    }
    Ok(())
}

impl MqttConfig {
    /// Checks settings: a broker is needed when MQTT is enabled, the port
    /// must not be 0, and the base topic must pass its own check.
    pub fn validate(&self) -> (r: Result<(), MqttConfigError>)
        ensures
            match config_error(self) {
                Some(e) => r == Err::<(), MqttConfigError>(e),
                None => r is Ok,
            },
    {
        if self.enabled && self.broker.as_str().unicode_len() == 0 {
            return Err(MqttConfigError::BrokerRequired);
        }
        if self.port == 0 {
            return Err(MqttConfigError::InvalidPort);
        }
        validate_base_topic(self.base_topic.as_str())
    }
}

/// The password shown to a client: the mask when one is set.
pub open spec fn masked_password(p: Seq<char>) -> Seq<char> {
    if p.len() == 0 {
        p
    } else {
        MQTT_PASSWORD_MASK@
    }
}

/// The password kept from one a client sends: the mask stands for the
/// password already kept.
pub open spec fn kept_password(sent: Seq<char>, current: Seq<char>) -> Seq<char> {
    if sent == MQTT_PASSWORD_MASK@ {
        current
    } else {
        sent
    }
}

/// Settings shown to a client and sent back with the password untouched
/// keep the stored password.
pub proof fn lemma_masked_password_roundtrip(p: Seq<char>)
    ensures
        kept_password(masked_password(p), p) == p,
{
}

/// The settings shown to a client: the password, when one is set, is
/// replaced by the mask.
pub fn masked_settings(cfg: MqttConfig) -> (r: MqttConfig)
    ensures
        r.password@ == masked_password(cfg.password@),
        r.enabled == cfg.enabled,
        r.broker == cfg.broker,
        r.port == cfg.port,
        r.username == cfg.username,
        r.base_topic == cfg.base_topic,
        r.use_tls == cfg.use_tls,
        r.tls_insecure == cfg.tls_insecure,
        r.enable_ha_discovery == cfg.enable_ha_discovery,
        r.enable_actions == cfg.enable_actions,
        r.debounce_ms == cfg.debounce_ms,
{
    let mut masked = cfg;
    if masked.password.as_str().unicode_len() != 0 {
        masked.password = owned(MQTT_PASSWORD_MASK);
    }
    masked
}

/// Settings sent by a client, made ready to keep: a broker is needed when
/// MQTT is enabled, port 0 becomes 1883, an empty base topic becomes the
/// default, the base topic must pass its check, and a masked password
/// stands for the one already kept (`current_password`).
pub fn prepare_settings(settings: MqttConfig, current_password: &str) -> (r: Result<
    MqttConfig,
    MqttConfigError,
>)
    ensures
        settings.enabled && settings.broker@.len() == 0 ==> r == Err::<
            MqttConfig,
            MqttConfigError,
        >(MqttConfigError::BrokerRequired),
        !(settings.enabled && settings.broker@.len() == 0) ==> ({
            let topic = if settings.base_topic@.len() == 0 {
                DEFAULT_BASE_TOPIC@
            } else {
                settings.base_topic@
            };
            match topic_error(topic) {
                Some(e) => r == Err::<MqttConfig, MqttConfigError>(e),
                None => r matches Ok(c) && c.base_topic@ == topic && c.port == (if settings.port
                    == 0 {
                    1883
                } else {
                    settings.port
                }) && c.password@ == kept_password(settings.password@, current_password@) && c.enabled == settings.enabled && c.broker == settings.broker && c.username
                    == settings.username && c.use_tls == settings.use_tls && c.tls_insecure
                    == settings.tls_insecure && c.enable_ha_discovery
                    == settings.enable_ha_discovery && c.enable_actions == settings.enable_actions
                    && c.debounce_ms == settings.debounce_ms,
            }
        }),
{
    let mut settings = settings;
    if settings.enabled && settings.broker.as_str().unicode_len() == 0 {
        return Err(MqttConfigError::BrokerRequired);
    }
    if settings.port == 0 {
        settings.port = DEFAULT_MQTT_PORT;
    }
    if settings.base_topic.as_str().unicode_len() == 0 {
        settings.base_topic = default_base_topic();
    }
    match validate_base_topic(settings.base_topic.as_str()) {
        Ok(()) => {},
        Err(e) => {
            return Err(e);
        },
    }
    if same_text(settings.password.as_str(), MQTT_PASSWORD_MASK) {
        settings.password = owned(current_password);
    }
    Ok(settings)
}

/// What changing the settings asks of the running connection before it is
/// restarted.
#[derive(Debug, Clone, Copy, PartialEq, Eq, Structural)]
pub enum SettingsCleanup {
    /// Nothing.
    Nothing,
    /// Clear every retained topic and discovery entry (MQTT was turned off).
    AllTopics,
    /// Remove the discovery entries (discovery was turned off).
    Discovery,
}

/// The cleanup a change of settings asks for, from whether MQTT and
/// discovery were on before and are on now.
pub fn settings_cleanup(old_enabled: bool, old_ha_discovery: bool, new: &MqttConfig) -> (r:
    SettingsCleanup)
    ensures
        r == (if old_enabled && !new.enabled {
            SettingsCleanup::AllTopics
        } else if old_ha_discovery && !new.enable_ha_discovery {
            SettingsCleanup::Discovery
        } else {
            SettingsCleanup::Nothing
        }),
{
    if old_enabled && !new.enabled {
        SettingsCleanup::AllTopics
    } else if old_ha_discovery && !new.enable_ha_discovery {
        SettingsCleanup::Discovery
    } else {
        SettingsCleanup::Nothing
    }
}

// ---------------------------------------------------------------------------
// Topics
// ---------------------------------------------------------------------------
/// `base` followed by `/part` for each of `parts`.
pub fn build_topic(base: &str, parts: &[&str]) -> (r: String)
    ensures
        r@ == topic_of(base@, str_texts(parts@)),
{
    let mut result = owned(base);
    let mut i: usize = 0;
    while i < parts.len()
        invariant
            i <= parts@.len(),
            result@ == topic_of(base@, str_texts(parts@.subrange(0, i as int))),
        decreases parts@.len() - i,
    {
        push_char(&mut result, '/');
        result.append(parts[i]);
        proof {
            let s = str_texts(parts@.subrange(0, i + 1));
            assert(s.drop_last() =~= str_texts(parts@.subrange(0, i as int)));
            assert(s.last() == parts@[i as int]@);
        }
        i = i + 1;
    }
    assert(parts@.subrange(0, parts@.len() as int) =~= parts@);
    result
}

/// The base topic a connection publishes under: the configured one (the
/// default when empty), checked for wildcards and spaces, with
/// `/device_id` added unless it already holds the device id.
pub fn connection_base_topic(configured: &str, device_id: &str) -> (r: Result<
    String,
    MqttConfigError,
>)
    ensures
        ({
            let t = if configured@.len() == 0 {
                DEFAULT_BASE_TOPIC@
            } else {
                configured@
            };
            if t.contains('+') || t.contains('#') {
                r == Err::<String, MqttConfigError>(MqttConfigError::TopicWildcard)
            } else if t.contains(' ') {
                r == Err::<String, MqttConfigError>(MqttConfigError::TopicSpace)
            } else if contains_seq(t, device_id@) {
                r matches Ok(s) && s@ == t
            } else {
                r matches Ok(s) && s@ == t + seq!['/'] + device_id@
            }
        }),
{
    let mut base = if configured.unicode_len() == 0 {
        default_base_topic()
    } else {
        owned(configured)
    };
    let cs = chars_of(base.as_str());
    if has_char(cs.as_slice(), '+') || has_char(cs.as_slice(), '#') {
        return Err(MqttConfigError::TopicWildcard);
    }
    if has_char(cs.as_slice(), ' ') {
        return Err(MqttConfigError::TopicSpace);
    }
    if !contains_text(base.as_str(), device_id) {
        push_char(&mut base, '/');
        base.append(device_id);
    }
    Ok(base)
}

/// The port a connection uses: 1883 when none is set.
pub fn connection_port(port: u16) -> (r: u16)
    ensures
        r == (if port == 0 {
            1883
        } else {
            port
        }),
{
    if port == 0 {
        DEFAULT_MQTT_PORT
    } else {
        port
    }
}

/// `prefix` followed by `device_id` and `suffix`.
fn id_with(prefix: &str, device_id: &str, suffix: &str) -> (r: String)
    ensures
        r@ == prefix@ + device_id@ + suffix@,
{
    let mut s = owned(prefix);
    s.append(device_id);
    s.append(suffix);
    s
}

/// The client id of the device's connection.
pub fn client_id(device_id: &str) -> (r: String)
    ensures
        r@ == "rustkvm-"@ + device_id@,
{
    let mut s = owned("rustkvm-");
    s.append(device_id);
    s
}

/// The client id of a test connection.
pub fn test_client_id(device_id: &str) -> (r: String)
    ensures
        r@ == "rustkvm-"@ + device_id@ + "-test"@,
{
    id_with("rustkvm-", device_id, "-test")
}

/// The topic under which a Home Assistant discovery entry is kept.
pub fn discovery_topic(component: &str, device_id: &str, object_id: &str) -> (r: String)
    ensures
        r@ == "homeassistant/"@ + component@ + "/rustkvm_"@ + device_id@ + "/"@ + object_id@
            + "/config"@,
{
    let mut s = owned("homeassistant/");
    s.append(component);
    s.append("/rustkvm_");
    s.append(device_id);
    s.append("/");
    s.append(object_id);
    s.append("/config");
    s
}

/// The entity id Home Assistant gives a discovered entity.
pub fn default_entity_id(component: &str, device_id: &str, object_id: &str) -> (r: String)
    ensures
        r@ == component@ + ".rustkvm_"@ + device_id@ + "_"@ + object_id@,
{
    let mut s = owned(component);
    s.append(".rustkvm_");
    s.append(device_id);
    s.append("_");
    s.append(object_id);
    s
}

// ---------------------------------------------------------------------------
// Commands
// ---------------------------------------------------------------------------
/// What a command on the virtual media topic asks for.
pub enum VirtualMediaCommand {
    /// Unmount the current image ("-- no media --").
    Unmount,
    /// Mount the stored image of this name (any image mounted is unmounted
    /// first).
    Mount(String),
    /// A name that could leave the image directory; refused.
    InvalidName,
}

/// What a message on a command topic asks for.
pub enum MqttCommand {
    /// The topic is none of the command topics.
    Unknown,
    /// Actions are disabled; the command is refused.
    ActionsDisabled,
    /// Switch DC power on or off; `None` for an unknown payload.
    DcPower(Option<bool>),
    /// Set the DC restore mode (0 off, 1 on, 2 last state); `None` for an
    /// unknown payload.
    DcRestore(Option<i32>),
    /// Press the ATX power button for this many ms.
    AtxPower(u64),
    /// Press the ATX reset button for this many ms.
    AtxReset(u64),
    /// Switch the jiggler on or off; `None` for an unknown payload. The
    /// jiggler state is published afterwards in either case.
    Jiggler(Option<bool>),
    /// Reboot the device.
    Reboot,
    /// Install the available update.
    UpdateInstall,
    /// Change the virtual media; its state is published afterwards.
    VirtualMedia(VirtualMediaCommand),
}

/// A virtual media command as plain values.
pub enum VirtualMediaCommandView {
    Unmount,
    Mount(Seq<char>),
    InvalidName,
}

/// An MQTT command as plain values.
pub enum MqttCommandView {
    Unknown,
    ActionsDisabled,
    DcPower(Option<bool>),
    DcRestore(Option<i32>),
    AtxPower(u64),
    AtxReset(u64),
    Jiggler(Option<bool>),
    Reboot,
    UpdateInstall,
    VirtualMedia(VirtualMediaCommandView),
}

impl View for MqttCommand {
    type V = MqttCommandView;

    open spec fn view(&self) -> MqttCommandView {
        match self {
            MqttCommand::Unknown => MqttCommandView::Unknown,
            MqttCommand::ActionsDisabled => MqttCommandView::ActionsDisabled,
            MqttCommand::DcPower(v) => MqttCommandView::DcPower(*v),
            MqttCommand::DcRestore(v) => MqttCommandView::DcRestore(*v),
            MqttCommand::AtxPower(ms) => MqttCommandView::AtxPower(*ms),
            MqttCommand::AtxReset(ms) => MqttCommandView::AtxReset(*ms),
            MqttCommand::Jiggler(v) => MqttCommandView::Jiggler(*v),
            MqttCommand::Reboot => MqttCommandView::Reboot,
            MqttCommand::UpdateInstall => MqttCommandView::UpdateInstall,
            MqttCommand::VirtualMedia(c) => MqttCommandView::VirtualMedia(
                match c {
                    VirtualMediaCommand::Unmount => VirtualMediaCommandView::Unmount,
                    VirtualMediaCommand::Mount(n) => VirtualMediaCommandView::Mount(n@),
                    VirtualMediaCommand::InvalidName => VirtualMediaCommandView::InvalidName,
                },
            ),
        }
    }
}

/// The command name of a topic: the topic after `base/`, or the whole
/// topic when it does not begin with `base/`.
pub open spec fn command_name(base: Seq<char>, topic: Seq<char>) -> Seq<char> {
    if starts_with(topic, base) && starts_with(
        topic.subrange(base.len() as int, topic.len() as int),
        seq!['/'],
    ) {
        topic.subrange(base.len() as int + 1, topic.len() as int)
    } else {
        topic
    }
}

/// An ON/OFF payload, read case-insensitively.
pub open spec fn on_off(payload: Seq<char>) -> Option<bool> {
    if upper_text(payload) == "ON"@ {
        Some(true)
    } else if upper_text(payload) == "OFF"@ {
        Some(false)
    } else {
        None
    }
}

/// A DC restore payload, read case-insensitively.
pub open spec fn restore_mode(payload: Seq<char>) -> Option<i32> {
    if lower_text(payload) == "off"@ {
        Some(0)
    } else if lower_text(payload) == "on"@ {
        Some(1)
    } else if lower_text(payload) == "last_state"@ {
        Some(2)
    } else {
        None
    }
}

/// What a virtual media payload asks for.
pub open spec fn virtual_media_command(payload: Seq<char>) -> VirtualMediaCommandView {
    if payload == "-- no media --"@ {
        VirtualMediaCommandView::Unmount
    } else if contains_seq(payload, ".."@) || payload.contains('/') || payload.contains('\\') {
        VirtualMediaCommandView::InvalidName
    } else {
        VirtualMediaCommandView::Mount(payload)
    }
}

/// Whether `name` is one of the command names.
pub open spec fn known_command(name: Seq<char>) -> bool {
    name == "dc_power/set"@ || name == "dc_restore/set"@ || name == "atx_power_short/set"@
        || name == "atx_power_long/set"@ || name == "atx_reset/set"@ || name == "jiggler/set"@
        || name == "reboot/set"@ || name == "update/install"@ || name == "virtual_media/set"@
}

/// What a message asks for, given the base topic, whether actions are
/// enabled, its topic and its payload (white space around the payload does
/// not count).
pub open spec fn command_for(base: Seq<char>, actions: bool, topic: Seq<char>, payload: Seq<char>) -> MqttCommandView {
    let name = command_name(base, topic);
    let p = trimmed(payload);
    if !known_command(name) {
        MqttCommandView::Unknown
    } else if !actions {
        MqttCommandView::ActionsDisabled
    } else if name == "dc_power/set"@ {
        MqttCommandView::DcPower(on_off(p))
    } else if name == "dc_restore/set"@ {
        MqttCommandView::DcRestore(restore_mode(p))
    } else if name == "atx_power_short/set"@ {
        MqttCommandView::AtxPower(200)
    } else if name == "atx_power_long/set"@ {
        MqttCommandView::AtxPower(5000)
    } else if name == "atx_reset/set"@ {
        MqttCommandView::AtxReset(500)
    } else if name == "jiggler/set"@ {
        MqttCommandView::Jiggler(on_off(p))
    } else if name == "reboot/set"@ {
        MqttCommandView::Reboot
    } else if name == "update/install"@ {
        MqttCommandView::UpdateInstall
    } else {
        MqttCommandView::VirtualMedia(virtual_media_command(p))
    }
}

fn command_name_exec(base: &str, topic: &str) -> (r: String)
    ensures
        r@ == command_name(base@, topic@),
{
    let t = chars_of(topic);
    let b = chars_of(base);
    if starts_with_chars(t.as_slice(), b.as_slice()) {
        let rest = slice_range(t.as_slice(), b.len(), t.len());
        if rest.len() > 0 && rest[0] == '/' {
            proof {
                assert(rest@.subrange(0, 1) =~= seq!['/']);
            }
            let name = slice_range(t.as_slice(), b.len() + 1, t.len());
            return string_of(name.as_slice());
        } else {
            proof {
                if rest@.len() > 0 {
                    assert(rest@.subrange(0, 1)[0] == rest@[0]);
                }
            }
        }
    }
    owned(topic)
}

fn on_off_exec(payload: &str) -> (r: Option<bool>)
    ensures
        r == on_off(payload@),
{
    let up = to_upper(payload);
    if same_text(up.as_str(), "ON") {
        Some(true)
    } else if same_text(up.as_str(), "OFF") {
        Some(false)
    } else {
        None
    }
}

fn restore_mode_exec(payload: &str) -> (r: Option<i32>)
    ensures
        r == restore_mode(payload@),
{
    let low = to_lower(payload);
    if same_text(low.as_str(), "off") {
        Some(0)
    } else if same_text(low.as_str(), "on") {
        Some(1)
    } else if same_text(low.as_str(), "last_state") {
        Some(2)
    } else {
        None
    }
}

/// What a virtual media payload asks for.
pub fn virtual_media_command_exec(payload: &str) -> (r: VirtualMediaCommand)
    ensures
        MqttCommand::VirtualMedia(r)@ == MqttCommandView::VirtualMedia(
            virtual_media_command(payload@),
        ),
{
    if same_text(payload, "-- no media --") {
        return VirtualMediaCommand::Unmount;
    }
    let cs = chars_of(payload);
    let dots = chars_of("..");
    if contains_chars(cs.as_slice(), dots.as_slice()) || has_char(cs.as_slice(), '/') || has_char(
        cs.as_slice(),
        '\\',
    ) {
        return VirtualMediaCommand::InvalidName;
    }
    VirtualMediaCommand::Mount(owned(payload))
}

/// What a message on a subscribed topic asks for (see [`command_for`]).
pub fn decide_command(base: &str, actions_allowed: bool, topic: &str, payload: &str) -> (r:
    MqttCommand)
    ensures
        r@ == command_for(base@, actions_allowed, topic@, payload@),
{
    let name_s = command_name_exec(base, topic);
    let name = name_s.as_str();
    let p_s = trim_text(payload);
    let p = p_s.as_str();
    let known = same_text(name, "dc_power/set") || same_text(name, "dc_restore/set") || same_text(
        name,
        "atx_power_short/set",
    ) || same_text(name, "atx_power_long/set") || same_text(name, "atx_reset/set") || same_text(
        name,
        "jiggler/set",
    ) || same_text(name, "reboot/set") || same_text(name, "update/install") || same_text(
        name,
        "virtual_media/set",
    );
    if !known {
        return MqttCommand::Unknown;
    }
    if !actions_allowed {
        return MqttCommand::ActionsDisabled;
    }
    if same_text(name, "dc_power/set") {
        MqttCommand::DcPower(on_off_exec(p))
    } else if same_text(name, "dc_restore/set") {
        MqttCommand::DcRestore(restore_mode_exec(p))
    } else if same_text(name, "atx_power_short/set") {
        MqttCommand::AtxPower(MQTT_ATX_SHORT_PRESS_MS)
    } else if same_text(name, "atx_power_long/set") {
        MqttCommand::AtxPower(MQTT_ATX_LONG_PRESS_MS)
    } else if same_text(name, "atx_reset/set") {
        MqttCommand::AtxReset(MQTT_ATX_RESET_PRESS_MS)
    } else if same_text(name, "jiggler/set") {
        MqttCommand::Jiggler(on_off_exec(p))
    } else if same_text(name, "reboot/set") {
        MqttCommand::Reboot
    } else if same_text(name, "update/install") {
        MqttCommand::UpdateInstall
    } else {
        MqttCommand::VirtualMedia(virtual_media_command_exec(p))
    }
}

// ---------------------------------------------------------------------------
// ATX state publishing
// ---------------------------------------------------------------------------
/// What to do with a freshly read ATX LED state.
#[derive(Debug, Clone, Copy, PartialEq, Eq, Structural)]
pub enum AtxPublish {
    /// Publish nothing.
    Skip,
    /// Publish the state now.
    Publish,
    /// Publish the state now and remember it as the last published one.
    PublishAndRemember,
    /// Publish the state after this many ms, unless a later state decides
    /// otherwise.
    PublishAfter(u64),
}

/// The memory of the ATX publisher: the debounce delay, the debounce timer
/// and the last state published.
#[derive(Debug, Clone, Copy, PartialEq, Eq, Structural)]
pub struct AtxPublisher {
    pub debounce_ms: u64,
    pub timer_active: bool,
    pub pending_state: Option<AtxState>,
    pub last_published: Option<AtxState>,
}

/// The publisher's memory and decision after a state was read.
pub open spec fn atx_step(p: AtxPublisher, connected: bool, state: AtxState) -> (
    AtxPublisher,
    AtxPublish,
) {
    if !connected {
        (p, AtxPublish::Skip)
    } else if p.debounce_ms == 0 {
        (p, AtxPublish::Publish)
    } else {
        match p.last_published {
            None => (AtxPublisher { last_published: Some(state), ..p }, AtxPublish::PublishAndRemember),
            Some(last) => if state.power != last.power {
                (
                    AtxPublisher {
                        timer_active: false,
                        pending_state: None,
                        last_published: Some(state),
                        ..p
                    },
                    AtxPublish::PublishAndRemember,
                )
            } else if state.hdd {
                let q = if p.timer_active {
                    AtxPublisher { timer_active: false, pending_state: None, ..p }
                } else {
                    p
                };
                if !last.hdd {
                    (AtxPublisher { last_published: Some(state), ..q }, AtxPublish::PublishAndRemember)
                } else {
                    (q, AtxPublish::Skip)
                }
            } else if !last.hdd {
                (p, AtxPublish::Skip)
            } else if p.timer_active {
                (p, AtxPublish::Skip)
            } else {
                (
                    AtxPublisher { timer_active: true, pending_state: Some(state), ..p },
                    AtxPublish::PublishAfter(p.debounce_ms),
                )
            },
        }
    }
}

impl AtxPublisher {
    /// A publisher that has published nothing yet.
    pub fn new(debounce_ms: u64) -> (r: Self)
        ensures
            r == (AtxPublisher {
                debounce_ms,
                timer_active: false,
                pending_state: None,
                last_published: None,
            }),
    {
        AtxPublisher { debounce_ms, timer_active: false, pending_state: None, last_published: None }
    }

    /// Decides what to publish for a freshly read state. Without debounce
    /// every state is published. With it, the first state and every power
    /// change are published at once; the disk LED going on is published
    /// at once, while its going off is published only after the debounce
    /// delay, so that disk activity does not flood the broker.
    pub fn on_state(&mut self, connected: bool, state: AtxState) -> (r: AtxPublish)
        ensures
            (*final(self), r) == atx_step(*old(self), connected, state),
    {
        if !connected {
            return AtxPublish::Skip;
        }
        if self.debounce_ms == 0 {
            return AtxPublish::Publish;
        }
        let last = match self.last_published {
            None => {
                self.last_published = Some(state);
                return AtxPublish::PublishAndRemember;
            },
            Some(l) => l,
        };
        if state.power != last.power {
            self.timer_active = false;
            self.pending_state = None;
            self.last_published = Some(state);
            return AtxPublish::PublishAndRemember;
        }
        if state.hdd {
            if self.timer_active {
                self.timer_active = false;
                self.pending_state = None;
            }
            if !last.hdd {
                self.last_published = Some(state);
                return AtxPublish::PublishAndRemember;
            }
            return AtxPublish::Skip;
        }
        if !last.hdd {
            return AtxPublish::Skip;
        }
        if self.timer_active {
            return AtxPublish::Skip;
        }
        self.timer_active = true;
        self.pending_state = Some(state);
        AtxPublish::PublishAfter(self.debounce_ms)
    }
}

/// The debounce timer runs exactly when a state is pending.
pub open spec fn atx_publisher_wf(p: AtxPublisher) -> bool {
    p.timer_active == (p.pending_state is Some)
}

/// The debounce timer runs exactly when a state is pending, before and
/// after every decision.
pub proof fn lemma_atx_publisher_keeps_wf(p: AtxPublisher, connected: bool, state: AtxState)
    requires
        atx_publisher_wf(p),
    ensures
        atx_publisher_wf(atx_step(p, connected, state).0),
{
}

/// With debounce on, reading the state that was last published again never
/// publishes anything.
pub proof fn lemma_atx_repeat_not_published(p: AtxPublisher, state: AtxState)
    requires
        p.debounce_ms > 0,
        p.last_published == Some(state),
    ensures
        atx_step(p, true, state).1 == AtxPublish::Skip,
{
}

/// With debounce on, a change of the power LED is published at once and
/// remembered, and cancels any pending publication.
pub proof fn lemma_atx_power_change_published(p: AtxPublisher, state: AtxState)
    requires
        p.debounce_ms > 0,
        p.last_published matches Some(last) && last.power != state.power,
    ensures
        atx_step(p, true, state).1 == AtxPublish::PublishAndRemember,
        atx_step(p, true, state).0.last_published == Some(state),
        !atx_step(p, true, state).0.timer_active,
{
}

/// While disconnected nothing is published and nothing changes.
pub proof fn lemma_atx_disconnected(p: AtxPublisher, state: AtxState)
    ensures
        atx_step(p, false, state) == (p, AtxPublish::Skip),
{
}

/// The command name of `base/name` is `name`.
proof fn lemma_command_name_under_base(base: Seq<char>, name: Seq<char>)
    ensures
        command_name(base, base + seq!['/'] + name) == name,
{
    let t = base + seq!['/'] + name;
    assert(t.subrange(0, base.len() as int) =~= base);
    let rest = t.subrange(base.len() as int, t.len() as int);
    assert(rest.subrange(0, 1) =~= seq!['/']);
    assert(t.subrange(base.len() as int + 1, t.len() as int) =~= name);
}

/// A message on `base/dc_restore/set`, with actions enabled, asks for
/// restore mode 0 when its payload reads `off`, 1 for `on` and 2 for
/// `last_state` (in any case, white space around it left out), and for no
/// mode on any other payload.
pub proof fn lemma_dc_restore_payloads(base: Seq<char>, payload: Seq<char>)
    ensures
        ({
            let c = command_for(base, true, base + "/dc_restore/set"@, payload);
            let low = lower_text(trimmed(payload));
            &&& low == "off"@ ==> c == MqttCommandView::DcRestore(Some(0))
            &&& low == "on"@ ==> c == MqttCommandView::DcRestore(Some(1))
            &&& low == "last_state"@ ==> c == MqttCommandView::DcRestore(Some(2))
            &&& (low != "off"@ && low != "on"@ && low != "last_state"@) ==> c == MqttCommandView::DcRestore(
                None,
            )
        }),
{
    reveal_strlit("/dc_restore/set");
    reveal_strlit("dc_restore/set");
    reveal_strlit("dc_power/set");
    reveal_strlit("off");
    reveal_strlit("on");
    reveal_strlit("last_state");
    assert("/dc_restore/set"@ =~= seq!['/'] + "dc_restore/set"@);
    assert(base + "/dc_restore/set"@ =~= base + seq!['/'] + "dc_restore/set"@);
    lemma_command_name_under_base(base, "dc_restore/set"@);
    assert("on"@.len() == 2 && "off"@.len() == 3 && "last_state"@.len() == 10);
}

/// A message on `base/dc_power/set` or `base/jiggler/set`, with actions
/// enabled, switches on for the payload `ON` and off for `OFF` (in any
/// case, white space around it left out), and asks for nothing definite on
/// any other payload.
pub proof fn lemma_on_off_payloads(base: Seq<char>, payload: Seq<char>)
    ensures
        ({
            let power = command_for(base, true, base + "/dc_power/set"@, payload);
            let jiggler = command_for(base, true, base + "/jiggler/set"@, payload);
            let up = upper_text(trimmed(payload));
            &&& up == "ON"@ ==> power == MqttCommandView::DcPower(Some(true))
                && jiggler == MqttCommandView::Jiggler(Some(true))
            &&& up == "OFF"@ ==> power == MqttCommandView::DcPower(Some(false))
                && jiggler == MqttCommandView::Jiggler(Some(false))
            &&& (up != "ON"@ && up != "OFF"@) ==> power == MqttCommandView::DcPower(None)
                && jiggler == MqttCommandView::Jiggler(None)
        }),
{
    reveal_strlit("/dc_power/set");
    reveal_strlit("dc_power/set");
    reveal_strlit("/jiggler/set");
    reveal_strlit("jiggler/set");
    reveal_strlit("dc_restore/set");
    reveal_strlit("atx_power_short/set");
    reveal_strlit("atx_power_long/set");
    reveal_strlit("atx_reset/set");
    reveal_strlit("ON");
    reveal_strlit("OFF");
    assert("/dc_power/set"@ =~= seq!['/'] + "dc_power/set"@);
    assert(base + "/dc_power/set"@ =~= base + seq!['/'] + "dc_power/set"@);
    lemma_command_name_under_base(base, "dc_power/set"@);
    assert("/jiggler/set"@ =~= seq!['/'] + "jiggler/set"@);
    assert(base + "/jiggler/set"@ =~= base + seq!['/'] + "jiggler/set"@);
    lemma_command_name_under_base(base, "jiggler/set"@);
    assert("ON"@.len() == 2 && "OFF"@.len() == 3);
}

/// The button and device commands under `base`, with actions enabled: a
/// short power press of 200 ms, a long one of 5 s, a reset press of 500 ms,
/// a reboot and an update install, whatever the payload; and with actions
/// disabled every one of them is refused.
pub proof fn lemma_button_and_device_topics(base: Seq<char>, payload: Seq<char>)
    ensures
        command_for(base, true, base + "/atx_power_short/set"@, payload) == MqttCommandView::AtxPower(200),
        command_for(base, true, base + "/atx_power_long/set"@, payload) == MqttCommandView::AtxPower(5000),
        command_for(base, true, base + "/atx_reset/set"@, payload) == MqttCommandView::AtxReset(500),
        command_for(base, true, base + "/reboot/set"@, payload) == MqttCommandView::Reboot,
        command_for(base, true, base + "/update/install"@, payload) == MqttCommandView::UpdateInstall,
        command_for(base, false, base + "/atx_power_short/set"@, payload) == MqttCommandView::ActionsDisabled,
        command_for(base, false, base + "/reboot/set"@, payload) == MqttCommandView::ActionsDisabled,
        command_for(base, false, base + "/dc_restore/set"@, payload) == MqttCommandView::ActionsDisabled,
{
    reveal_strlit("dc_power/set");
    reveal_strlit("dc_restore/set");
    reveal_strlit("atx_power_short/set");
    reveal_strlit("atx_power_long/set");
    reveal_strlit("atx_reset/set");
    reveal_strlit("jiggler/set");
    reveal_strlit("reboot/set");
    reveal_strlit("update/install");
    reveal_strlit("/atx_power_short/set");
    reveal_strlit("/atx_power_long/set");
    reveal_strlit("/atx_reset/set");
    reveal_strlit("/reboot/set");
    reveal_strlit("/update/install");
    reveal_strlit("/dc_restore/set");
    assert("/atx_power_short/set"@ =~= seq!['/'] + "atx_power_short/set"@);
    assert(base + "/atx_power_short/set"@ =~= base + seq!['/'] + "atx_power_short/set"@);
    lemma_command_name_under_base(base, "atx_power_short/set"@);
    assert("/atx_power_long/set"@ =~= seq!['/'] + "atx_power_long/set"@);
    assert(base + "/atx_power_long/set"@ =~= base + seq!['/'] + "atx_power_long/set"@);
    lemma_command_name_under_base(base, "atx_power_long/set"@);
    assert("/atx_reset/set"@ =~= seq!['/'] + "atx_reset/set"@);
    assert(base + "/atx_reset/set"@ =~= base + seq!['/'] + "atx_reset/set"@);
    lemma_command_name_under_base(base, "atx_reset/set"@);
    assert("/reboot/set"@ =~= seq!['/'] + "reboot/set"@);
    assert(base + "/reboot/set"@ =~= base + seq!['/'] + "reboot/set"@);
    lemma_command_name_under_base(base, "reboot/set"@);
    assert("/update/install"@ =~= seq!['/'] + "update/install"@);
    assert(base + "/update/install"@ =~= base + seq!['/'] + "update/install"@);
    lemma_command_name_under_base(base, "update/install"@);
    assert("/dc_restore/set"@ =~= seq!['/'] + "dc_restore/set"@);
    assert(base + "/dc_restore/set"@ =~= base + seq!['/'] + "dc_restore/set"@);
    lemma_command_name_under_base(base, "dc_restore/set"@);
    assert("atx_power_short/set"@.len() == 19 && "atx_power_long/set"@.len() == 18);
    assert("atx_reset/set"@.len() == 13 && "reboot/set"@.len() == 10 && "jiggler/set"@.len() == 11);
    assert("dc_power/set"@.len() == 12 && "dc_restore/set"@.len() == 14 && "update/install"@.len() == 14);
    assert("update/install"@[0] != "dc_restore/set"@[0]);
}

} // verus!
