//! Home Assistant discovery: the entities the device announces over MQTT,
//! the payload of each, and which entries are published or withdrawn for a
//! given set of enabled features.
use vstd::prelude::*;
use crate::text::{owned, same_text};

verus! {

/// The template that turns the status topic into Home Assistant's
/// availability.
pub const AVAILABILITY_TEMPLATE: &'static str = "{{ 'online' if value_json.online else 'offline' }}";

/// The template that names the DC restore mode.
pub const DC_RESTORE_TEMPLATE: &'static str = "{% set rs = value_json.restoreState | int %}{% if rs == 0 %}off{% elif rs == 1 %}on{% elif rs == 2 %}last_state{% else %}unknown{% endif %}";

/// Where the project's releases are listed.
pub const RELEASE_URL: &'static str = "https://github.com/foxxcn/rustkvm/releases";

/// The texts of a list of strings.
pub open spec fn texts(v: Seq<String>) -> Seq<Seq<char>> {
    v.map_values(|s: String| s@)
}

/// The text of an optional string.
pub open spec fn opt_text(o: Option<String>) -> Option<Seq<char>> {
    match o {
        Some(s) => Some(s@),
        None => None,
    }
}

/// The device block of a discovery entry.
pub struct HaDevice {
    pub identifiers: Vec<String>,
    pub name: String,
    pub manufacturer: String,
    pub model: String,
    pub sw_version: Option<String>,
    pub serial_number: Option<String>,
    pub configuration_url: Option<String>,
}

/// What a device block says.
pub struct HaDeviceView {
    pub identifiers: Seq<Seq<char>>,
    pub name: Seq<char>,
    pub manufacturer: Seq<char>,
    pub model: Seq<char>,
    pub sw_version: Option<Seq<char>>,
    pub serial_number: Option<Seq<char>>,
    pub configuration_url: Option<Seq<char>>,
}

impl View for HaDevice {
    type V = HaDeviceView;

    open spec fn view(&self) -> HaDeviceView {
        HaDeviceView {
            identifiers: texts(self.identifiers@),
            name: self.name@,
            manufacturer: self.manufacturer@,
            model: self.model@,
            sw_version: opt_text(self.sw_version),
            serial_number: opt_text(self.serial_number),
            configuration_url: opt_text(self.configuration_url),
        }
    }
}

/// A Home Assistant discovery payload.
pub struct HaDiscoveryPayload {
    pub name: String,
    pub unique_id: String,
    pub state_topic: Option<String>,
    pub command_topic: Option<String>,
    pub value_template: Option<String>,
    pub availability_topic: String,
    pub availability_template: String,
    pub device: Option<HaDevice>,
    pub device_class: Option<String>,
    pub unit_of_measurement: Option<String>,
    pub state_class: Option<String>,
    pub payload_on: Option<String>,
    pub payload_off: Option<String>,
    pub payload_press: Option<String>,
    pub icon: Option<String>,
    pub entity_category: Option<String>,
    pub default_entity_id: Option<String>,
    pub enabled_by_default: Option<bool>,
    pub json_attributes_topic: Option<String>,
    pub json_attributes_template: Option<String>,
    pub options: Option<Vec<String>>,
    pub latest_version_topic: Option<String>,
    pub latest_version_template: Option<String>,
    pub payload_install: Option<String>,
    pub release_url: Option<String>,
}

/// What a discovery payload says.
pub struct HaPayloadView {
    pub name: Seq<char>,
    pub unique_id: Seq<char>,
    pub state_topic: Option<Seq<char>>,
    pub command_topic: Option<Seq<char>>,
    pub value_template: Option<Seq<char>>,
    pub availability_topic: Seq<char>,
    pub availability_template: Seq<char>,
    pub device: Option<HaDeviceView>,
    pub device_class: Option<Seq<char>>,
    pub unit_of_measurement: Option<Seq<char>>,
    pub state_class: Option<Seq<char>>,
    pub payload_on: Option<Seq<char>>,
    pub payload_off: Option<Seq<char>>,
    pub payload_press: Option<Seq<char>>,
    pub icon: Option<Seq<char>>,
    pub entity_category: Option<Seq<char>>,
    pub default_entity_id: Option<Seq<char>>,
    pub enabled_by_default: Option<bool>,
    pub json_attributes_topic: Option<Seq<char>>,
    pub json_attributes_template: Option<Seq<char>>,
    pub options: Option<Seq<Seq<char>>>,
    pub latest_version_topic: Option<Seq<char>>,
    pub latest_version_template: Option<Seq<char>>,
    pub payload_install: Option<Seq<char>>,
    pub release_url: Option<Seq<char>>,
}

impl View for HaDiscoveryPayload {
    type V = HaPayloadView;

    open spec fn view(&self) -> HaPayloadView {
        HaPayloadView {
            name: self.name@,
            unique_id: self.unique_id@,
            state_topic: opt_text(self.state_topic),
            command_topic: opt_text(self.command_topic),
            value_template: opt_text(self.value_template),
            availability_topic: self.availability_topic@,
            availability_template: self.availability_template@,
            device: match self.device {
                Some(d) => Some(d@),
                None => None,
            },
            device_class: opt_text(self.device_class),
            unit_of_measurement: opt_text(self.unit_of_measurement),
            state_class: opt_text(self.state_class),
            payload_on: opt_text(self.payload_on),
            payload_off: opt_text(self.payload_off),
            payload_press: opt_text(self.payload_press),
            icon: opt_text(self.icon),
            entity_category: opt_text(self.entity_category),
            default_entity_id: opt_text(self.default_entity_id),
            enabled_by_default: self.enabled_by_default,
            json_attributes_topic: opt_text(self.json_attributes_topic),
            json_attributes_template: opt_text(self.json_attributes_template),
            options: match self.options {
                Some(v) => Some(texts(v@)),
                None => None,
            },
            latest_version_topic: opt_text(self.latest_version_topic),
            latest_version_template: opt_text(self.latest_version_template),
            payload_install: opt_text(self.payload_install),
            release_url: opt_text(self.release_url),
        }
    }
}

/// A copy of a list of strings.
pub fn copy_strings(v: &Vec<String>) -> (r: Vec<String>)
    ensures
        texts(r@) == texts(v@),
{
    let mut r: Vec<String> = Vec::new();
    let mut i: usize = 0;
    while i < v.len()
        invariant
            i <= v@.len(),
            texts(r@) == texts(v@.subrange(0, i as int)),
        decreases v@.len() - i,
    {
        r.push(owned(v[i].as_str()));
        proof {
            assert(texts(v@.subrange(0, i + 1)) =~= texts(v@.subrange(0, i as int)).push(v@[i as int]@));
        }
        i = i + 1;
    }
    assert(v@.subrange(0, v@.len() as int) =~= v@);
    r
}

fn copy_opt(o: &Option<String>) -> (r: Option<String>)
    ensures
        opt_text(r) == opt_text(*o),
{
    match o {
        Some(s) => Some(owned(s.as_str())),
        None => None,
    }
}

impl HaDevice {
    /// A copy of this device block.
    pub fn duplicate(&self) -> (r: HaDevice)
        ensures
            r@ == self@,
    {
        HaDevice {
            identifiers: copy_strings(&self.identifiers),
            name: owned(self.name.as_str()),
            manufacturer: owned(self.manufacturer.as_str()),
            model: owned(self.model.as_str()),
            sw_version: copy_opt(&self.sw_version),
            serial_number: copy_opt(&self.serial_number),
            configuration_url: copy_opt(&self.configuration_url),
        }
    }
}

fn concat(a: &str, b: &str) -> (r: String)
    ensures
        r@ == a@ + b@,
{
    let mut s = owned(a);
    s.append(b);
    s
}

fn some_text(s: &str) -> (r: Option<String>)
    ensures
        opt_text(r) == Some(s@),
{
    Some(owned(s))
}

/// The optional text that is absent when empty.
pub open spec fn unless_empty(s: Seq<char>) -> Option<Seq<char>> {
    if s.len() == 0 {
        None
    } else {
        Some(s)
    }
}

fn unless_empty_exec(s: &str) -> (r: Option<String>)
    ensures
        opt_text(r) == unless_empty(s@),
{
    if s.unicode_len() == 0 {
        None
    } else {
        Some(owned(s))
    }
}

/// The device block announced for a device: its id, the software version
/// text and the configuration URL, each of the last two left out when
/// empty.
pub fn ha_device_info(device_id: &str, sw_version: &str, config_url: &str) -> (r: HaDevice)
    ensures
        r@ == (HaDeviceView {
            identifiers: seq![device_id@],
            name: "RustKVM "@ + device_id@,
            manufacturer: "RustKVM"@,
            model: "RustKVM"@,
            sw_version: unless_empty(sw_version@),
            serial_number: Some(device_id@),
            configuration_url: unless_empty(config_url@),
        }),
{
    let mut ids: Vec<String> = Vec::new();
    ids.push(owned(device_id));
    let r = HaDevice {
        identifiers: ids,
        name: concat("RustKVM ", device_id),
        manufacturer: owned("RustKVM"),
        model: owned("RustKVM"),
        sw_version: unless_empty_exec(sw_version),
        serial_number: Some(owned(device_id)),
        configuration_url: unless_empty_exec(config_url),
    };
    assert(texts(r.identifiers@) =~= seq![device_id@]);
    r
}

/// The configuration URL of a device reachable at `ip` (empty when no
/// address is known).
pub fn network_config_url(ip: Option<&str>) -> (r: String)
    ensures
        r@ == (match ip {
            Some(a) => if a@.len() == 0 {
                Seq::empty()
            } else {
                "http://"@ + a@
            },
            None => Seq::empty(),
        }),
{
    match ip {
        Some(a) => {
            if a.unicode_len() == 0 {
                String::new()
            } else {
                concat("http://", a)
            }
        },
        None => String::new(),
    }
}

/// The software version text of the device block.
pub fn sw_version_string(app_version: &str) -> (r: String)
    ensures
        r@ == "App: "@ + app_version@,
{
    concat("App: ", app_version)
}

/// What a discovery plan is made for: the device's id, the base topic and
/// the device block.
pub struct DiscoveryContext {
    pub device_id: String,
    pub base_topic: String,
    pub device: HaDevice,
}

/// `base/a`.
pub open spec fn topic1(c: DiscoveryContext, a: Seq<char>) -> Seq<char> {
    c.base_topic@ + "/"@ + a
}

/// `base/a/b`.
pub open spec fn topic2(c: DiscoveryContext, a: Seq<char>, b: Seq<char>) -> Seq<char> {
    topic1(c, a) + "/"@ + b
}

/// The unique id of an entity: `rustkvm_<device>_<suffix>`.
pub open spec fn uid(c: DiscoveryContext, suffix: Seq<char>) -> Seq<char> {
    "rustkvm_"@ + c.device_id@ + "_"@ + suffix
}

fn topic1_exec(c: &DiscoveryContext, a: &str) -> (r: String)
    ensures
        r@ == topic1(*c, a@),
{
    let mut s = owned(c.base_topic.as_str());
    s.append("/");
    s.append(a);
    s
}

fn topic2_exec(c: &DiscoveryContext, a: &str, b: &str) -> (r: String)
    ensures
        r@ == topic2(*c, a@, b@),
{
    let mut s = topic1_exec(c, a);
    s.append("/");
    s.append(b);
    s
}

fn uid_exec(c: &DiscoveryContext, suffix: &str) -> (r: String)
    ensures
        r@ == uid(*c, suffix@),
{
    let mut s = owned("rustkvm_");
    s.append(c.device_id.as_str());
    s.append("_");
    s.append(suffix);
    s
}

/// The fields every entity shares: its name and unique id, availability
/// through the status topic, and the device block; nothing else set.
pub open spec fn payload_base(c: DiscoveryContext, name: Seq<char>, suffix: Seq<char>) -> HaPayloadView {
    HaPayloadView {
        name,
        unique_id: uid(c, suffix),
        state_topic: None,
        command_topic: None,
        value_template: None,
        availability_topic: topic1(c, "status"@),
        availability_template: AVAILABILITY_TEMPLATE@,
        device: Some(c.device@),
        device_class: None,
        unit_of_measurement: None,
        state_class: None,
        payload_on: None,
        payload_off: None,
        payload_press: None,
        icon: None,
        entity_category: None,
        default_entity_id: None,
        enabled_by_default: None,
        json_attributes_topic: None,
        json_attributes_template: None,
        options: None,
        latest_version_topic: None,
        latest_version_template: None,
        payload_install: None,
        release_url: None,
    }
}

fn payload_base_exec(c: &DiscoveryContext, name: &str, suffix: &str) -> (r: HaDiscoveryPayload)
    ensures
        r@ == payload_base(*c, name@, suffix@),
{
    HaDiscoveryPayload {
        name: owned(name),
        unique_id: uid_exec(c, suffix),
        state_topic: None,
        command_topic: None,
        value_template: None,
        availability_topic: topic1_exec(c, "status"),
        availability_template: owned(AVAILABILITY_TEMPLATE),
        device: Some(c.device.duplicate()),
        device_class: None,
        unit_of_measurement: None,
        state_class: None,
        payload_on: None,
        payload_off: None,
        payload_press: None,
        icon: None,
        entity_category: None,
        default_entity_id: None,
        enabled_by_default: None,
        json_attributes_topic: None,
        json_attributes_template: None,
        options: None,
        latest_version_topic: None,
        latest_version_template: None,
        payload_install: None,
        release_url: None,
    }
}

/// The entities the device can announce.
#[derive(Debug, Clone, Copy, PartialEq, Eq, Structural)]
pub enum HaEntity {
    Online,
    VideoSignal,
    VideoResolution,
    VideoFps,
    CloudConnected,
    ActiveSessions,
    UsbState,
    IpAddress,
    Hostname,
    CpuLoad,
    Temperature,
    MemoryUsed,
    StorageUsed,
    StorageFree,
    VirtualMediaSelect,
    VirtualMediaSensor,
    JigglerSwitch,
    JigglerSensor,
    Reboot,
    Firmware,
    PowerLed,
    HddLed,
    AtxPowerShort,
    AtxPowerLong,
    AtxReset,
    DcVoltage,
    DcCurrent,
    DcPower,
    DcPowerSwitch,
    DcPowerSensor,
    DcRestoreSelect,
    DcRestoreSensor,
}

/// The Home Assistant component of an entity.
pub open spec fn component(e: HaEntity) -> Seq<char> {
    match e {
        HaEntity::Online => "binary_sensor"@,
        HaEntity::VideoSignal => "binary_sensor"@,
        HaEntity::VideoResolution => "sensor"@,
        HaEntity::VideoFps => "sensor"@,
        HaEntity::CloudConnected => "binary_sensor"@,
        HaEntity::ActiveSessions => "sensor"@,
        HaEntity::UsbState => "binary_sensor"@,
        HaEntity::IpAddress => "sensor"@,
        HaEntity::Hostname => "sensor"@,
        HaEntity::CpuLoad => "sensor"@,
        HaEntity::Temperature => "sensor"@,
        HaEntity::MemoryUsed => "sensor"@,
        HaEntity::StorageUsed => "sensor"@,
        HaEntity::StorageFree => "sensor"@,
        HaEntity::VirtualMediaSelect => "select"@,
        HaEntity::VirtualMediaSensor => "sensor"@,
        HaEntity::JigglerSwitch => "switch"@,
        HaEntity::JigglerSensor => "binary_sensor"@,
        HaEntity::Reboot => "button"@,
        HaEntity::Firmware => "update"@,
        HaEntity::PowerLed => "binary_sensor"@,
        HaEntity::HddLed => "binary_sensor"@,
        HaEntity::AtxPowerShort => "button"@,
        HaEntity::AtxPowerLong => "button"@,
        HaEntity::AtxReset => "button"@,
        HaEntity::DcVoltage => "sensor"@,
        HaEntity::DcCurrent => "sensor"@,
        HaEntity::DcPower => "sensor"@,
        HaEntity::DcPowerSwitch => "switch"@,
        HaEntity::DcPowerSensor => "binary_sensor"@,
        HaEntity::DcRestoreSelect => "select"@,
        HaEntity::DcRestoreSensor => "sensor"@,
    }
}

/// The object id of an entity.
pub open spec fn object_id(e: HaEntity) -> Seq<char> {
    match e {
        HaEntity::Online => "online"@,
        HaEntity::VideoSignal => "video_signal"@,
        HaEntity::VideoResolution => "video_resolution"@,
        HaEntity::VideoFps => "video_fps"@,
        HaEntity::CloudConnected => "cloud_connected"@,
        HaEntity::ActiveSessions => "active_sessions"@,
        HaEntity::UsbState => "usb_state"@,
        HaEntity::IpAddress => "ip_address"@,
        HaEntity::Hostname => "hostname"@,
        HaEntity::CpuLoad => "cpu_load"@,
        HaEntity::Temperature => "temperature"@,
        HaEntity::MemoryUsed => "memory_used"@,
        HaEntity::StorageUsed => "storage_used"@,
        HaEntity::StorageFree => "storage_free"@,
        HaEntity::VirtualMediaSelect => "virtual_media"@,
        HaEntity::VirtualMediaSensor => "virtual_media"@,
        HaEntity::JigglerSwitch => "jiggler"@,
        HaEntity::JigglerSensor => "jiggler"@,
        HaEntity::Reboot => "reboot"@,
        HaEntity::Firmware => "firmware"@,
        HaEntity::PowerLed => "power_led"@,
        HaEntity::HddLed => "hdd_led"@,
        HaEntity::AtxPowerShort => "atx_power_short"@,
        HaEntity::AtxPowerLong => "atx_power_long"@,
        HaEntity::AtxReset => "atx_reset"@,
        HaEntity::DcVoltage => "voltage"@,
        HaEntity::DcCurrent => "current"@,
        HaEntity::DcPower => "power"@,
        HaEntity::DcPowerSwitch => "dc_power"@,
        HaEntity::DcPowerSensor => "dc_power"@,
        HaEntity::DcRestoreSelect => "dc_restore"@,
        HaEntity::DcRestoreSensor => "dc_restore"@,
    }
}

/// The component and object id of an entity.
pub fn entity_key(e: HaEntity) -> (r: (&'static str, &'static str))
    ensures
        r.0@ == component(e),
        r.1@ == object_id(e),
{
    match e {
        HaEntity::Online => ("binary_sensor", "online"),
        HaEntity::VideoSignal => ("binary_sensor", "video_signal"),
        HaEntity::VideoResolution => ("sensor", "video_resolution"),
        HaEntity::VideoFps => ("sensor", "video_fps"),
        HaEntity::CloudConnected => ("binary_sensor", "cloud_connected"),
        HaEntity::ActiveSessions => ("sensor", "active_sessions"),
        HaEntity::UsbState => ("binary_sensor", "usb_state"),
        HaEntity::IpAddress => ("sensor", "ip_address"),
        HaEntity::Hostname => ("sensor", "hostname"),
        HaEntity::CpuLoad => ("sensor", "cpu_load"),
        HaEntity::Temperature => ("sensor", "temperature"),
        HaEntity::MemoryUsed => ("sensor", "memory_used"),
        HaEntity::StorageUsed => ("sensor", "storage_used"),
        HaEntity::StorageFree => ("sensor", "storage_free"),
        HaEntity::VirtualMediaSelect => ("select", "virtual_media"),
        HaEntity::VirtualMediaSensor => ("sensor", "virtual_media"),
        HaEntity::JigglerSwitch => ("switch", "jiggler"),
        HaEntity::JigglerSensor => ("binary_sensor", "jiggler"),
        HaEntity::Reboot => ("button", "reboot"),
        HaEntity::Firmware => ("update", "firmware"),
        HaEntity::PowerLed => ("binary_sensor", "power_led"),
        HaEntity::HddLed => ("binary_sensor", "hdd_led"),
        HaEntity::AtxPowerShort => ("button", "atx_power_short"),
        HaEntity::AtxPowerLong => ("button", "atx_power_long"),
        HaEntity::AtxReset => ("button", "atx_reset"),
        HaEntity::DcVoltage => ("sensor", "voltage"),
        HaEntity::DcCurrent => ("sensor", "current"),
        HaEntity::DcPower => ("sensor", "power"),
        HaEntity::DcPowerSwitch => ("switch", "dc_power"),
        HaEntity::DcPowerSensor => ("binary_sensor", "dc_power"),
        HaEntity::DcRestoreSelect => ("select", "dc_restore"),
        HaEntity::DcRestoreSensor => ("sensor", "dc_restore"),
    }
}

/// The payload of an entity, for the plan's context, whether actions are
/// enabled, and the virtual media choices.
pub open spec fn entity_payload(e: HaEntity, c: DiscoveryContext, actions: bool, vm: Seq<Seq<char>>) -> HaPayloadView {
    match e {
        HaEntity::Online => HaPayloadView {
            state_topic: Some(topic1(c, "status"@)),
            value_template: Some("{{ 'ON' if value_json.online else 'OFF' }}"@),
            device_class: Some("connectivity"@),
            ..payload_base(c, "Online"@, "online"@)
        },
        HaEntity::VideoSignal => HaPayloadView {
            state_topic: Some(topic2(c, "video"@, "state"@)),
            value_template: Some("{{ 'ON' if value_json.ready else 'OFF' }}"@),
            device_class: Some("connectivity"@),
            icon: Some("mdi:video-input-hdmi"@),
            ..payload_base(c, "Video Signal"@, "video_signal"@)
        },
        HaEntity::VideoResolution => HaPayloadView {
            state_topic: Some(topic2(c, "video"@, "state"@)),
            value_template: Some("{{ value_json.width }}x{{ value_json.height }}"@),
            icon: Some("mdi:monitor"@),
            entity_category: Some("diagnostic"@),
            enabled_by_default: Some(false),
            ..payload_base(c, "Video Resolution"@, "video_resolution"@)
        },
        HaEntity::VideoFps => HaPayloadView {
            state_topic: Some(topic2(c, "video"@, "state"@)),
            value_template: Some("{{ value_json.fps | round(1) }}"@),
            unit_of_measurement: Some("fps"@),
            state_class: Some("measurement"@),
            icon: Some("mdi:speedometer"@),
            entity_category: Some("diagnostic"@),
            enabled_by_default: Some(false),
            ..payload_base(c, "Video FPS"@, "video_fps"@)
        },
        HaEntity::CloudConnected => HaPayloadView {
            state_topic: Some(topic2(c, "cloud"@, "state"@)),
            value_template: Some("{{ 'ON' if value_json.connected else 'OFF' }}"@),
            device_class: Some("connectivity"@),
            icon: Some("mdi:cloud"@),
            entity_category: Some("diagnostic"@),
            ..payload_base(c, "Cloud Connected"@, "cloud_connected"@)
        },
        HaEntity::ActiveSessions => HaPayloadView {
            state_topic: Some(topic2(c, "sessions"@, "state"@)),
            value_template: Some("{{ value_json.active_sessions }}"@),
            icon: Some("mdi:account-multiple"@),
            state_class: Some("measurement"@),
            ..payload_base(c, "Active Sessions"@, "active_sessions"@)
        },
        HaEntity::UsbState => HaPayloadView {
            state_topic: Some(topic2(c, "usb"@, "state"@)),
            value_template: Some("{{ 'ON' if value_json.state == 'configured' else 'OFF' }}"@),
            device_class: Some("connectivity"@),
            icon: Some("mdi:usb"@),
            ..payload_base(c, "USB Connected"@, "usb_state"@)
        },
        HaEntity::IpAddress => HaPayloadView {
            state_topic: Some(topic2(c, "network"@, "state"@)),
            value_template: Some("{{ value_json.ip_address }}"@),
            icon: Some("mdi:ip-network"@),
            entity_category: Some("diagnostic"@),
            enabled_by_default: Some(false),
            ..payload_base(c, "IP Address"@, "ip_address"@)
        },
        HaEntity::Hostname => HaPayloadView {
            state_topic: Some(topic2(c, "network"@, "state"@)),
            value_template: Some("{{ value_json.hostname }}"@),
            icon: Some("mdi:dns"@),
            entity_category: Some("diagnostic"@),
            enabled_by_default: Some(false),
            ..payload_base(c, "Hostname"@, "hostname"@)
        },
        HaEntity::CpuLoad => HaPayloadView {
            state_topic: Some(topic2(c, "system"@, "state"@)),
            value_template: Some("{{ value_json.cpu_load | round(2) }}"@),
            state_class: Some("measurement"@),
            icon: Some("mdi:chip"@),
            entity_category: Some("diagnostic"@),
            enabled_by_default: Some(false),
            ..payload_base(c, "CPU Load"@, "cpu_load"@)
        },
        HaEntity::Temperature => HaPayloadView {
            state_topic: Some(topic2(c, "system"@, "state"@)),
            value_template: Some("{{ value_json.temperature | round(1) }}"@),
            device_class: Some("temperature"@),
            unit_of_measurement: Some("°C"@),
            state_class: Some("measurement"@),
            entity_category: Some("diagnostic"@),
            ..payload_base(c, "Temperature"@, "temperature"@)
        },
        HaEntity::MemoryUsed => HaPayloadView {
            state_topic: Some(topic2(c, "system"@, "state"@)),
            value_template: Some("{{ (value_json.memory_used / 1048576) | round(1) }}"@),
            unit_of_measurement: Some("MB"@),
            icon: Some("mdi:memory"@),
            state_class: Some("measurement"@),
            entity_category: Some("diagnostic"@),
            enabled_by_default: Some(false),
            ..payload_base(c, "Memory Used"@, "memory_used"@)
        },
        HaEntity::StorageUsed => HaPayloadView {
            state_topic: Some(topic2(c, "system"@, "state"@)),
            value_template: Some("{{ (value_json.storage_used / 1048576) | round(1) }}"@),
            device_class: Some("data_size"@),
            unit_of_measurement: Some("MB"@),
            state_class: Some("measurement"@),
            entity_category: Some("diagnostic"@),
            enabled_by_default: Some(false),
            ..payload_base(c, "Storage Used"@, "storage_used"@)
        },
        HaEntity::StorageFree => HaPayloadView {
            state_topic: Some(topic2(c, "system"@, "state"@)),
            value_template: Some("{{ (value_json.storage_free / 1048576) | round(1) }}"@),
            device_class: Some("data_size"@),
            unit_of_measurement: Some("MB"@),
            state_class: Some("measurement"@),
            entity_category: Some("diagnostic"@),
            enabled_by_default: Some(false),
            ..payload_base(c, "Storage Free"@, "storage_free"@)
        },
        HaEntity::VirtualMediaSelect => HaPayloadView {
            state_topic: Some(topic2(c, "virtual_media"@, "state"@)),
            command_topic: Some(topic2(c, "virtual_media"@, "set"@)),
            value_template: Some("{{ value_json.mounted_image }}"@),
            options: Some(vm),
            icon: Some("mdi:disc"@),
            json_attributes_topic: Some(topic2(c, "virtual_media"@, "state"@)),
            json_attributes_template: Some("{{ {'source': value_json.source} | tojson }}"@),
            ..payload_base(c, "Virtual Media"@, "virtual_media"@)
        },
        HaEntity::VirtualMediaSensor => HaPayloadView {
            state_topic: Some(topic2(c, "virtual_media"@, "state"@)),
            value_template: Some("{{ value_json.mounted_image }}"@),
            icon: Some("mdi:disc"@),
            json_attributes_topic: Some(topic2(c, "virtual_media"@, "state"@)),
            json_attributes_template: Some("{{ {'source': value_json.source} | tojson }}"@),
            ..payload_base(c, "Virtual Media"@, "virtual_media"@)
        },
        HaEntity::JigglerSwitch => HaPayloadView {
            state_topic: Some(topic2(c, "jiggler"@, "state"@)),
            command_topic: Some(topic2(c, "jiggler"@, "set"@)),
            value_template: Some("{{ 'ON' if value_json.enabled else 'OFF' }}"@),
            payload_on: Some("ON"@),
            payload_off: Some("OFF"@),
            icon: Some("mdi:mouse"@),
            ..payload_base(c, "Mouse Jiggler"@, "jiggler"@)
        },
        HaEntity::JigglerSensor => HaPayloadView {
            state_topic: Some(topic2(c, "jiggler"@, "state"@)),
            value_template: Some("{{ 'ON' if value_json.enabled else 'OFF' }}"@),
            icon: Some("mdi:mouse"@),
            ..payload_base(c, "Mouse Jiggler"@, "jiggler"@)
        },
        HaEntity::Reboot => HaPayloadView {
            command_topic: Some(topic2(c, "reboot"@, "set"@)),
            payload_press: Some("PRESS"@),
            device_class: Some("restart"@),
            icon: Some("mdi:restart"@),
            entity_category: Some("config"@),
            ..payload_base(c, "Reboot"@, "reboot"@)
        },
        HaEntity::Firmware => HaPayloadView {
            state_topic: Some(topic2(c, "update"@, "state"@)),
            device_class: Some("firmware"@),
            entity_category: Some("config"@),
            release_url: Some(RELEASE_URL@),
            command_topic: if actions { Some(topic2(c, "update"@, "install"@)) } else { None },
            payload_install: if actions { Some("INSTALL"@) } else { None },
            ..payload_base(c, "Firmware"@, "firmware"@)
        },
        HaEntity::PowerLed => HaPayloadView {
            state_topic: Some(topic2(c, "atx"@, "state"@)),
            value_template: Some("{{ 'ON' if value_json.power else 'OFF' }}"@),
            icon: Some("mdi:led-on"@),
            ..payload_base(c, "ATX Power LED"@, "power_led"@)
        },
        HaEntity::HddLed => HaPayloadView {
            state_topic: Some(topic2(c, "atx"@, "state"@)),
            value_template: Some("{{ 'ON' if value_json.hdd else 'OFF' }}"@),
            icon: Some("mdi:harddisk"@),
            ..payload_base(c, "ATX HDD LED"@, "hdd_led"@)
        },
        HaEntity::AtxPowerShort => HaPayloadView {
            command_topic: Some(topic2(c, "atx_power_short"@, "set"@)),
            payload_press: Some("PRESS"@),
            icon: Some("mdi:power"@),
            ..payload_base(c, "ATX Power (Short Press)"@, "atx_power_short"@)
        },
        HaEntity::AtxPowerLong => HaPayloadView {
            command_topic: Some(topic2(c, "atx_power_long"@, "set"@)),
            payload_press: Some("PRESS"@),
            icon: Some("mdi:power"@),
            ..payload_base(c, "ATX Power (Long Press)"@, "atx_power_long"@)
        },
        HaEntity::AtxReset => HaPayloadView {
            command_topic: Some(topic2(c, "atx_reset"@, "set"@)),
            payload_press: Some("PRESS"@),
            icon: Some("mdi:restart"@),
            ..payload_base(c, "ATX Reset"@, "atx_reset"@)
        },
        HaEntity::DcVoltage => HaPayloadView {
            state_topic: Some(topic2(c, "dc"@, "state"@)),
            value_template: Some("{{ value_json.voltage | round(2) }}"@),
            device_class: Some("voltage"@),
            unit_of_measurement: Some("V"@),
            state_class: Some("measurement"@),
            ..payload_base(c, "DC Voltage"@, "voltage"@)
        },
        HaEntity::DcCurrent => HaPayloadView {
            state_topic: Some(topic2(c, "dc"@, "state"@)),
            value_template: Some("{{ value_json.current | round(3) }}"@),
            device_class: Some("current"@),
            unit_of_measurement: Some("A"@),
            state_class: Some("measurement"@),
            ..payload_base(c, "DC Current"@, "current"@)
        },
        HaEntity::DcPower => HaPayloadView {
            state_topic: Some(topic2(c, "dc"@, "state"@)),
            value_template: Some("{{ value_json.power | round(2) }}"@),
            device_class: Some("power"@),
            unit_of_measurement: Some("W"@),
            state_class: Some("measurement"@),
            ..payload_base(c, "DC Power"@, "power"@)
        },
        HaEntity::DcPowerSwitch => HaPayloadView {
            state_topic: Some(topic2(c, "dc"@, "state"@)),
            command_topic: Some(topic2(c, "dc_power"@, "set"@)),
            value_template: Some("{{ 'ON' if value_json.isOn else 'OFF' }}"@),
            payload_on: Some("ON"@),
            payload_off: Some("OFF"@),
            device_class: Some("switch"@),
            icon: Some("mdi:power"@),
            ..payload_base(c, "DC Power"@, "dc_power"@)
        },
        HaEntity::DcPowerSensor => HaPayloadView {
            state_topic: Some(topic2(c, "dc"@, "state"@)),
            value_template: Some("{{ 'ON' if value_json.isOn else 'OFF' }}"@),
            device_class: Some("power"@),
            icon: Some("mdi:power"@),
            ..payload_base(c, "DC Power"@, "dc_power"@)
        },
        HaEntity::DcRestoreSelect => HaPayloadView {
            state_topic: Some(topic2(c, "dc"@, "state"@)),
            command_topic: Some(topic2(c, "dc_restore"@, "set"@)),
            value_template: Some(DC_RESTORE_TEMPLATE@),
            options: Some(seq!["off"@, "on"@, "last_state"@]),
            icon: Some("mdi:power-settings"@),
            entity_category: Some("config"@),
            ..payload_base(c, "Restore on Power Loss"@, "dc_restore"@)
        },
        HaEntity::DcRestoreSensor => HaPayloadView {
            state_topic: Some(topic2(c, "dc"@, "state"@)),
            value_template: Some(DC_RESTORE_TEMPLATE@),
            icon: Some("mdi:power-settings"@),
            ..payload_base(c, "Restore on Power Loss"@, "dc_restore_ro"@)
        },
    }
}

fn core_payload(e: HaEntity, c: &DiscoveryContext, actions: bool, vm: &Vec<String>) -> (r: HaDiscoveryPayload)
    requires
        e == HaEntity::Online || e == HaEntity::VideoSignal || e == HaEntity::VideoResolution || e == HaEntity::VideoFps || e == HaEntity::CloudConnected || e == HaEntity::ActiveSessions || e == HaEntity::UsbState || e == HaEntity::IpAddress || e == HaEntity::Hostname || e == HaEntity::CpuLoad,
    ensures
        r@ == entity_payload(e, *c, actions, texts(vm@)),
{
    match e {
        HaEntity::Online => {
            let b = payload_base_exec(c, "Online", "online");
            HaDiscoveryPayload {
                state_topic: Some(topic1_exec(c, "status")),
                value_template: some_text("{{ 'ON' if value_json.online else 'OFF' }}"),
                device_class: some_text("connectivity"),
                ..b
            }
        },
        HaEntity::VideoSignal => {
            let b = payload_base_exec(c, "Video Signal", "video_signal");
            HaDiscoveryPayload {
                state_topic: Some(topic2_exec(c, "video", "state")),
                value_template: some_text("{{ 'ON' if value_json.ready else 'OFF' }}"),
                device_class: some_text("connectivity"),
                icon: some_text("mdi:video-input-hdmi"),
                ..b
            }
        },
        HaEntity::VideoResolution => {
            let b = payload_base_exec(c, "Video Resolution", "video_resolution");
            HaDiscoveryPayload {
                state_topic: Some(topic2_exec(c, "video", "state")),
                value_template: some_text("{{ value_json.width }}x{{ value_json.height }}"),
                icon: some_text("mdi:monitor"),
                entity_category: some_text("diagnostic"),
                enabled_by_default: Some(false),
                ..b
            }
        },
        HaEntity::VideoFps => {
            let b = payload_base_exec(c, "Video FPS", "video_fps");
            HaDiscoveryPayload {
                state_topic: Some(topic2_exec(c, "video", "state")),
                value_template: some_text("{{ value_json.fps | round(1) }}"),
                unit_of_measurement: some_text("fps"),
                state_class: some_text("measurement"),
                icon: some_text("mdi:speedometer"),
                entity_category: some_text("diagnostic"),
                enabled_by_default: Some(false),
                ..b
            }
        },
        HaEntity::CloudConnected => {
            let b = payload_base_exec(c, "Cloud Connected", "cloud_connected");
            HaDiscoveryPayload {
                state_topic: Some(topic2_exec(c, "cloud", "state")),
                value_template: some_text("{{ 'ON' if value_json.connected else 'OFF' }}"),
                device_class: some_text("connectivity"),
                icon: some_text("mdi:cloud"),
                entity_category: some_text("diagnostic"),
                ..b
            }
        },
        HaEntity::ActiveSessions => {
            let b = payload_base_exec(c, "Active Sessions", "active_sessions");
            HaDiscoveryPayload {
                state_topic: Some(topic2_exec(c, "sessions", "state")),
                value_template: some_text("{{ value_json.active_sessions }}"),
                icon: some_text("mdi:account-multiple"),
                state_class: some_text("measurement"),
                ..b
            }
        },
        HaEntity::UsbState => {
            let b = payload_base_exec(c, "USB Connected", "usb_state");
            HaDiscoveryPayload {
                state_topic: Some(topic2_exec(c, "usb", "state")),
                value_template: some_text("{{ 'ON' if value_json.state == 'configured' else 'OFF' }}"),
                device_class: some_text("connectivity"),
                icon: some_text("mdi:usb"),
                ..b
            }
        },
        HaEntity::IpAddress => {
            let b = payload_base_exec(c, "IP Address", "ip_address");
            HaDiscoveryPayload {
                state_topic: Some(topic2_exec(c, "network", "state")),
                value_template: some_text("{{ value_json.ip_address }}"),
                icon: some_text("mdi:ip-network"),
                entity_category: some_text("diagnostic"),
                enabled_by_default: Some(false),
                ..b
            }
        },
        HaEntity::Hostname => {
            let b = payload_base_exec(c, "Hostname", "hostname");
            HaDiscoveryPayload {
                state_topic: Some(topic2_exec(c, "network", "state")),
                value_template: some_text("{{ value_json.hostname }}"),
                icon: some_text("mdi:dns"),
                entity_category: some_text("diagnostic"),
                enabled_by_default: Some(false),
                ..b
            }
        },
        HaEntity::CpuLoad => {
            let b = payload_base_exec(c, "CPU Load", "cpu_load");
            HaDiscoveryPayload {
                state_topic: Some(topic2_exec(c, "system", "state")),
                value_template: some_text("{{ value_json.cpu_load | round(2) }}"),
                state_class: some_text("measurement"),
                icon: some_text("mdi:chip"),
                entity_category: some_text("diagnostic"),
                enabled_by_default: Some(false),
                ..b
            }
        },
        _ => payload_base_exec(c, "", ""),
    }
}

fn feature_payload(e: HaEntity, c: &DiscoveryContext, actions: bool, vm: &Vec<String>) -> (r: HaDiscoveryPayload)
    requires
        e == HaEntity::Temperature || e == HaEntity::MemoryUsed || e == HaEntity::StorageUsed || e == HaEntity::StorageFree || e == HaEntity::VirtualMediaSelect || e == HaEntity::VirtualMediaSensor || e == HaEntity::JigglerSwitch || e == HaEntity::JigglerSensor || e == HaEntity::Reboot || e == HaEntity::Firmware,
    ensures
        r@ == entity_payload(e, *c, actions, texts(vm@)),
{
    match e {
        HaEntity::Temperature => {
            let b = payload_base_exec(c, "Temperature", "temperature");
            HaDiscoveryPayload {
                state_topic: Some(topic2_exec(c, "system", "state")),
                value_template: some_text("{{ value_json.temperature | round(1) }}"),
                device_class: some_text("temperature"),
                unit_of_measurement: some_text("°C"),
                state_class: some_text("measurement"),
                entity_category: some_text("diagnostic"),
                ..b
            }
        },
        HaEntity::MemoryUsed => {
            let b = payload_base_exec(c, "Memory Used", "memory_used");
            HaDiscoveryPayload {
                state_topic: Some(topic2_exec(c, "system", "state")),
                value_template: some_text("{{ (value_json.memory_used / 1048576) | round(1) }}"),
                unit_of_measurement: some_text("MB"),
                icon: some_text("mdi:memory"),
                state_class: some_text("measurement"),
                entity_category: some_text("diagnostic"),
                enabled_by_default: Some(false),
                ..b
            }
        },
        HaEntity::StorageUsed => {
            let b = payload_base_exec(c, "Storage Used", "storage_used");
            HaDiscoveryPayload {
                state_topic: Some(topic2_exec(c, "system", "state")),
                value_template: some_text("{{ (value_json.storage_used / 1048576) | round(1) }}"),
                device_class: some_text("data_size"),
                unit_of_measurement: some_text("MB"),
                state_class: some_text("measurement"),
                entity_category: some_text("diagnostic"),
                enabled_by_default: Some(false),
                ..b
            }
        },
        HaEntity::StorageFree => {
            let b = payload_base_exec(c, "Storage Free", "storage_free");
            HaDiscoveryPayload {
                state_topic: Some(topic2_exec(c, "system", "state")),
                value_template: some_text("{{ (value_json.storage_free / 1048576) | round(1) }}"),
                device_class: some_text("data_size"),
                unit_of_measurement: some_text("MB"),
                state_class: some_text("measurement"),
                entity_category: some_text("diagnostic"),
                enabled_by_default: Some(false),
                ..b
            }
        },
        HaEntity::VirtualMediaSelect => {
            let b = payload_base_exec(c, "Virtual Media", "virtual_media");
            HaDiscoveryPayload {
                state_topic: Some(topic2_exec(c, "virtual_media", "state")),
                command_topic: Some(topic2_exec(c, "virtual_media", "set")),
                value_template: some_text("{{ value_json.mounted_image }}"),
                options: Some(copy_strings(vm)),
                icon: some_text("mdi:disc"),
                json_attributes_topic: Some(topic2_exec(c, "virtual_media", "state")),
                json_attributes_template: some_text("{{ {'source': value_json.source} | tojson }}"),
                ..b
            }
        },
        HaEntity::VirtualMediaSensor => {
            let b = payload_base_exec(c, "Virtual Media", "virtual_media");
            HaDiscoveryPayload {
                state_topic: Some(topic2_exec(c, "virtual_media", "state")),
                value_template: some_text("{{ value_json.mounted_image }}"),
                icon: some_text("mdi:disc"),
                json_attributes_topic: Some(topic2_exec(c, "virtual_media", "state")),
                json_attributes_template: some_text("{{ {'source': value_json.source} | tojson }}"),
                ..b
            }
        },
        HaEntity::JigglerSwitch => {
            let b = payload_base_exec(c, "Mouse Jiggler", "jiggler");
            HaDiscoveryPayload {
                state_topic: Some(topic2_exec(c, "jiggler", "state")),
                command_topic: Some(topic2_exec(c, "jiggler", "set")),
                value_template: some_text("{{ 'ON' if value_json.enabled else 'OFF' }}"),
                payload_on: some_text("ON"),
                payload_off: some_text("OFF"),
                icon: some_text("mdi:mouse"),
                ..b
            }
        },
        HaEntity::JigglerSensor => {
            let b = payload_base_exec(c, "Mouse Jiggler", "jiggler");
            HaDiscoveryPayload {
                state_topic: Some(topic2_exec(c, "jiggler", "state")),
                value_template: some_text("{{ 'ON' if value_json.enabled else 'OFF' }}"),
                icon: some_text("mdi:mouse"),
                ..b
            }
        },
        HaEntity::Reboot => {
            let b = payload_base_exec(c, "Reboot", "reboot");
            HaDiscoveryPayload {
                command_topic: Some(topic2_exec(c, "reboot", "set")),
                payload_press: some_text("PRESS"),
                device_class: some_text("restart"),
                icon: some_text("mdi:restart"),
                entity_category: some_text("config"),
                ..b
            }
        },
        HaEntity::Firmware => {
            let b = payload_base_exec(c, "Firmware", "firmware");
            HaDiscoveryPayload {
                state_topic: Some(topic2_exec(c, "update", "state")),
                device_class: some_text("firmware"),
                entity_category: some_text("config"),
                release_url: some_text(RELEASE_URL),
                command_topic: if actions { Some(topic2_exec(c, "update", "install")) } else { None },
                payload_install: if actions { some_text("INSTALL") } else { None },
                ..b
            }
        },
        _ => payload_base_exec(c, "", ""),
    }
}

fn power_payload(e: HaEntity, c: &DiscoveryContext, actions: bool, vm: &Vec<String>) -> (r: HaDiscoveryPayload)
    requires
        e == HaEntity::PowerLed || e == HaEntity::HddLed || e == HaEntity::AtxPowerShort || e == HaEntity::AtxPowerLong || e == HaEntity::AtxReset || e == HaEntity::DcVoltage || e == HaEntity::DcCurrent || e == HaEntity::DcPower || e == HaEntity::DcPowerSwitch || e == HaEntity::DcPowerSensor || e == HaEntity::DcRestoreSelect || e == HaEntity::DcRestoreSensor,
    ensures
        r@ == entity_payload(e, *c, actions, texts(vm@)),
{
    match e {
        HaEntity::PowerLed => {
            let b = payload_base_exec(c, "ATX Power LED", "power_led");
            HaDiscoveryPayload {
                state_topic: Some(topic2_exec(c, "atx", "state")),
                value_template: some_text("{{ 'ON' if value_json.power else 'OFF' }}"),
                icon: some_text("mdi:led-on"),
                ..b
            }
        },
        HaEntity::HddLed => {
            let b = payload_base_exec(c, "ATX HDD LED", "hdd_led");
            HaDiscoveryPayload {
                state_topic: Some(topic2_exec(c, "atx", "state")),
                value_template: some_text("{{ 'ON' if value_json.hdd else 'OFF' }}"),
                icon: some_text("mdi:harddisk"),
                ..b
            }
        },
        HaEntity::AtxPowerShort => {
            let b = payload_base_exec(c, "ATX Power (Short Press)", "atx_power_short");
            HaDiscoveryPayload {
                command_topic: Some(topic2_exec(c, "atx_power_short", "set")),
                payload_press: some_text("PRESS"),
                icon: some_text("mdi:power"),
                ..b
            }
        },
        HaEntity::AtxPowerLong => {
            let b = payload_base_exec(c, "ATX Power (Long Press)", "atx_power_long");
            HaDiscoveryPayload {
                command_topic: Some(topic2_exec(c, "atx_power_long", "set")),
                payload_press: some_text("PRESS"),
                icon: some_text("mdi:power"),
                ..b
            }
        },
        HaEntity::AtxReset => {
            let b = payload_base_exec(c, "ATX Reset", "atx_reset");
            HaDiscoveryPayload {
                command_topic: Some(topic2_exec(c, "atx_reset", "set")),
                payload_press: some_text("PRESS"),
                icon: some_text("mdi:restart"),
                ..b
            }
        },
        HaEntity::DcVoltage => {
            let b = payload_base_exec(c, "DC Voltage", "voltage");
            HaDiscoveryPayload {
                state_topic: Some(topic2_exec(c, "dc", "state")),
                value_template: some_text("{{ value_json.voltage | round(2) }}"),
                device_class: some_text("voltage"),
                unit_of_measurement: some_text("V"),
                state_class: some_text("measurement"),
                ..b
            }
        },
        HaEntity::DcCurrent => {
            let b = payload_base_exec(c, "DC Current", "current");
            HaDiscoveryPayload {
                state_topic: Some(topic2_exec(c, "dc", "state")),
                value_template: some_text("{{ value_json.current | round(3) }}"),
                device_class: some_text("current"),
                unit_of_measurement: some_text("A"),
                state_class: some_text("measurement"),
                ..b
            }
        },
        HaEntity::DcPower => {
            let b = payload_base_exec(c, "DC Power", "power");
            HaDiscoveryPayload {
                state_topic: Some(topic2_exec(c, "dc", "state")),
                value_template: some_text("{{ value_json.power | round(2) }}"),
                device_class: some_text("power"),
                unit_of_measurement: some_text("W"),
                state_class: some_text("measurement"),
                ..b
            }
        },
        HaEntity::DcPowerSwitch => {
            let b = payload_base_exec(c, "DC Power", "dc_power");
            HaDiscoveryPayload {
                state_topic: Some(topic2_exec(c, "dc", "state")),
                command_topic: Some(topic2_exec(c, "dc_power", "set")),
                value_template: some_text("{{ 'ON' if value_json.isOn else 'OFF' }}"),
                payload_on: some_text("ON"),
                payload_off: some_text("OFF"),
                device_class: some_text("switch"),
                icon: some_text("mdi:power"),
                ..b
            }
        },
        HaEntity::DcPowerSensor => {
            let b = payload_base_exec(c, "DC Power", "dc_power");
            HaDiscoveryPayload {
                state_topic: Some(topic2_exec(c, "dc", "state")),
                value_template: some_text("{{ 'ON' if value_json.isOn else 'OFF' }}"),
                device_class: some_text("power"),
                icon: some_text("mdi:power"),
                ..b
            }
        },
        HaEntity::DcRestoreSelect => {
            let b = payload_base_exec(c, "Restore on Power Loss", "dc_restore");
            HaDiscoveryPayload {
                state_topic: Some(topic2_exec(c, "dc", "state")),
                command_topic: Some(topic2_exec(c, "dc_restore", "set")),
                value_template: some_text(DC_RESTORE_TEMPLATE),
                options: Some(restore_options()),
                icon: some_text("mdi:power-settings"),
                entity_category: some_text("config"),
                ..b
            }
        },
        HaEntity::DcRestoreSensor => {
            let b = payload_base_exec(c, "Restore on Power Loss", "dc_restore_ro");
            HaDiscoveryPayload {
                state_topic: Some(topic2_exec(c, "dc", "state")),
                value_template: some_text(DC_RESTORE_TEMPLATE),
                icon: some_text("mdi:power-settings"),
                ..b
            }
        },
        _ => payload_base_exec(c, "", ""),
    }
}

fn restore_options() -> (r: Vec<String>)
    ensures
        texts(r@) == seq!["off"@, "on"@, "last_state"@],
{
    let mut v: Vec<String> = Vec::new();
    v.push(owned("off"));
    v.push(owned("on"));
    v.push(owned("last_state"));
    assert(texts(v@) =~= seq!["off"@, "on"@, "last_state"@]);
    v
}

/// The payload of an entity.
pub fn entity_payload_exec(e: HaEntity, c: &DiscoveryContext, actions: bool, vm: &Vec<String>) -> (r: HaDiscoveryPayload)
    ensures
        r@ == entity_payload(e, *c, actions, texts(vm@)),
{
    match e {

        HaEntity::Online | HaEntity::VideoSignal | HaEntity::VideoResolution | HaEntity::VideoFps | HaEntity::CloudConnected | HaEntity::ActiveSessions | HaEntity::UsbState | HaEntity::IpAddress | HaEntity::Hostname | HaEntity::CpuLoad => core_payload(e, c, actions, vm),

        HaEntity::Temperature | HaEntity::MemoryUsed | HaEntity::StorageUsed | HaEntity::StorageFree | HaEntity::VirtualMediaSelect | HaEntity::VirtualMediaSensor | HaEntity::JigglerSwitch | HaEntity::JigglerSensor | HaEntity::Reboot | HaEntity::Firmware => feature_payload(e, c, actions, vm),

        HaEntity::PowerLed | HaEntity::HddLed | HaEntity::AtxPowerShort | HaEntity::AtxPowerLong | HaEntity::AtxReset | HaEntity::DcVoltage | HaEntity::DcCurrent | HaEntity::DcPower | HaEntity::DcPowerSwitch | HaEntity::DcPowerSensor | HaEntity::DcRestoreSelect | HaEntity::DcRestoreSensor => power_payload(e, c, actions, vm),

    }
}


// ---------------------------------------------------------------------------
// Plans
// ---------------------------------------------------------------------------
/// A step of a discovery plan: an entity, and whether its entry is
/// published (`true`) or withdrawn.
pub type PlanStep = (HaEntity, bool);

/// Publishing each of `es`.
pub open spec fn publish_all(es: Seq<HaEntity>) -> Seq<PlanStep> {
    es.map_values(|e: HaEntity| (e, true))
}

/// Withdrawing each of `es`.
pub open spec fn withdraw_all(es: Seq<HaEntity>) -> Seq<PlanStep> {
    es.map_values(|e: HaEntity| (e, false))
}

/// The entities announced whatever is enabled.
pub open spec fn core_entities() -> Seq<HaEntity> {
    seq![
        HaEntity::Online,
        HaEntity::VideoSignal,
        HaEntity::VideoResolution,
        HaEntity::VideoFps,
        HaEntity::CloudConnected,
        HaEntity::ActiveSessions,
        HaEntity::UsbState,
        HaEntity::IpAddress,
        HaEntity::Hostname,
        HaEntity::CpuLoad,
        HaEntity::Temperature,
        HaEntity::MemoryUsed,
        HaEntity::StorageUsed,
        HaEntity::StorageFree,
    ]
}

/// The entities of the ATX extension.
pub open spec fn atx_entities() -> Seq<HaEntity> {
    seq![
        HaEntity::PowerLed,
        HaEntity::HddLed,
        HaEntity::AtxPowerShort,
        HaEntity::AtxPowerLong,
        HaEntity::AtxReset,
    ]
}

/// The entities of the DC extension.
pub open spec fn dc_entities() -> Seq<HaEntity> {
    seq![
        HaEntity::DcVoltage,
        HaEntity::DcCurrent,
        HaEntity::DcPower,
        HaEntity::DcPowerSwitch,
        HaEntity::DcPowerSensor,
        HaEntity::DcRestoreSelect,
        HaEntity::DcRestoreSensor,
    ]
}

/// The ATX entries: both LEDs, then the three buttons, published when
/// actions are enabled and withdrawn otherwise.
pub open spec fn atx_plan(actions: bool) -> Seq<PlanStep> {
    let buttons = seq![HaEntity::AtxPowerShort, HaEntity::AtxPowerLong, HaEntity::AtxReset];
    publish_all(seq![HaEntity::PowerLed, HaEntity::HddLed]) + if actions {
        publish_all(buttons)
    } else {
        withdraw_all(buttons)
    }
}

/// Replacing entity `old` by entity `new`: `old` withdrawn, `new` published.
pub open spec fn swap(old: HaEntity, new: HaEntity) -> Seq<PlanStep> {
    seq![(old, false), (new, true)]
}

/// The DC entries: the three readings; the power switch (or, without
/// actions, a read-only sensor); and the restore mode as a select (or a
/// sensor), or neither when the restore mode is not known.
pub open spec fn dc_plan(actions: bool, restore_known: bool) -> Seq<PlanStep> {
    publish_all(seq![HaEntity::DcVoltage, HaEntity::DcCurrent, HaEntity::DcPower]) + (if actions {
        swap(HaEntity::DcPowerSensor, HaEntity::DcPowerSwitch)
    } else {
        swap(HaEntity::DcPowerSwitch, HaEntity::DcPowerSensor)
    }) + (if !restore_known {
        withdraw_all(seq![HaEntity::DcRestoreSelect, HaEntity::DcRestoreSensor])
    } else if actions {
        swap(HaEntity::DcRestoreSensor, HaEntity::DcRestoreSelect)
    } else {
        swap(HaEntity::DcRestoreSelect, HaEntity::DcRestoreSensor)
    })
}

/// The full plan: the core entities; virtual media and the jiggler as
/// controls or as read-only sensors; the reboot button only with actions;
/// the firmware entry; then the entries of the active power extension,
/// with those of the other extension withdrawn.
pub open spec fn ha_plan(actions: bool, extension: Seq<char>, restore_known: bool) -> Seq<PlanStep> {
    publish_all(core_entities()) + (if actions {
        swap(HaEntity::VirtualMediaSensor, HaEntity::VirtualMediaSelect)
    } else {
        swap(HaEntity::VirtualMediaSelect, HaEntity::VirtualMediaSensor)
    }) + (if actions {
        swap(HaEntity::JigglerSensor, HaEntity::JigglerSwitch)
    } else {
        swap(HaEntity::JigglerSwitch, HaEntity::JigglerSensor)
    }) + seq![(HaEntity::Reboot, actions), (HaEntity::Firmware, true)] + (if extension
        == "atx-power"@ {
        atx_plan(actions) + withdraw_all(dc_entities())
    } else if extension == "dc-power"@ {
        dc_plan(actions, restore_known) + withdraw_all(atx_entities())
    } else {
        withdraw_all(atx_entities()) + withdraw_all(dc_entities())
    })
}

/// Withdrawing every entry the device may have announced.
pub open spec fn removal_plan() -> Seq<PlanStep> {
    withdraw_all(
        core_entities() + seq![
            HaEntity::VirtualMediaSelect,
            HaEntity::VirtualMediaSensor,
            HaEntity::JigglerSwitch,
            HaEntity::JigglerSensor,
            HaEntity::Reboot,
            HaEntity::Firmware,
        ] + atx_entities() + dc_entities(),
    )
}

fn push_steps(v: &mut Vec<PlanStep>, es: &[HaEntity], publish: bool)
    ensures
        final(v)@ == old(v)@ + es@.map_values(|e: HaEntity| (e, publish)),
{
    let mut i: usize = 0;
    while i < es.len()
        invariant
            i <= es@.len(),
            v@ == old(v)@ + es@.subrange(0, i as int).map_values(|e: HaEntity| (e, publish)),
        decreases es@.len() - i,
    {
        v.push((es[i], publish));
        proof {
            assert(es@.subrange(0, i + 1).map_values(|e: HaEntity| (e, publish)) =~= es@.subrange(
                0,
                i as int,
            ).map_values(|e: HaEntity| (e, publish)).push((es@[i as int], publish)));
        }
        i = i + 1;
    }
    assert(es@.subrange(0, es@.len() as int) =~= es@);
}

fn core_entities_exec() -> (r: Vec<HaEntity>)
    ensures
        r@ == core_entities(),
{
    let r = vec![
        HaEntity::Online,
        HaEntity::VideoSignal,
        HaEntity::VideoResolution,
        HaEntity::VideoFps,
        HaEntity::CloudConnected,
        HaEntity::ActiveSessions,
        HaEntity::UsbState,
        HaEntity::IpAddress,
        HaEntity::Hostname,
        HaEntity::CpuLoad,
        HaEntity::Temperature,
        HaEntity::MemoryUsed,
        HaEntity::StorageUsed,
        HaEntity::StorageFree,
    ];
    assert(r@ =~= core_entities());
    r
}

fn atx_entities_exec() -> (r: Vec<HaEntity>)
    ensures
        r@ == atx_entities(),
{
    let r = vec![
        HaEntity::PowerLed,
        HaEntity::HddLed,
        HaEntity::AtxPowerShort,
        HaEntity::AtxPowerLong,
        HaEntity::AtxReset,
    ];
    assert(r@ =~= atx_entities());
    r
}

fn dc_entities_exec() -> (r: Vec<HaEntity>)
    ensures
        r@ == dc_entities(),
{
    let r = vec![
        HaEntity::DcVoltage,
        HaEntity::DcCurrent,
        HaEntity::DcPower,
        HaEntity::DcPowerSwitch,
        HaEntity::DcPowerSensor,
        HaEntity::DcRestoreSelect,
        HaEntity::DcRestoreSensor,
    ];
    assert(r@ =~= dc_entities());
    r
}

fn push_swap(v: &mut Vec<PlanStep>, old_e: HaEntity, new_e: HaEntity)
    ensures
        final(v)@ == old(v)@ + swap(old_e, new_e),
{
    v.push((old_e, false));
    v.push((new_e, true));
    assert(final(v)@ =~= old(v)@ + swap(old_e, new_e));
}

/// The steps of the ATX entries.
pub fn atx_plan_exec(actions: bool) -> (r: Vec<PlanStep>)
    ensures
        r@ == atx_plan(actions),
{
    let mut v: Vec<PlanStep> = Vec::new();
    let leds = vec![HaEntity::PowerLed, HaEntity::HddLed];
    let buttons = vec![HaEntity::AtxPowerShort, HaEntity::AtxPowerLong, HaEntity::AtxReset];
    push_steps(&mut v, leds.as_slice(), true);
    push_steps(&mut v, buttons.as_slice(), actions);
    assert(v@ =~= atx_plan(actions));
    v
}

/// The steps of the DC entries.
pub fn dc_plan_exec(actions: bool, restore_known: bool) -> (r: Vec<PlanStep>)
    ensures
        r@ == dc_plan(actions, restore_known),
{
    let mut v: Vec<PlanStep> = Vec::new();
    let readings = vec![HaEntity::DcVoltage, HaEntity::DcCurrent, HaEntity::DcPower];
    push_steps(&mut v, readings.as_slice(), true);
    let ghost a = v@;
    if actions {
        push_swap(&mut v, HaEntity::DcPowerSensor, HaEntity::DcPowerSwitch);
    } else {
        push_swap(&mut v, HaEntity::DcPowerSwitch, HaEntity::DcPowerSensor);
    }
    let ghost b = v@;
    if !restore_known {
        let both = vec![HaEntity::DcRestoreSelect, HaEntity::DcRestoreSensor];
        push_steps(&mut v, both.as_slice(), false);
    } else if actions {
        push_swap(&mut v, HaEntity::DcRestoreSensor, HaEntity::DcRestoreSelect);
    } else {
        push_swap(&mut v, HaEntity::DcRestoreSelect, HaEntity::DcRestoreSensor);
    }
    assert(v@ =~= dc_plan(actions, restore_known));
    v
}

/// The steps of the full discovery plan.
pub fn ha_plan_exec(actions: bool, extension: &str, restore_known: bool) -> (r: Vec<PlanStep>)
    ensures
        r@ == ha_plan(actions, extension@, restore_known),
{
    let mut v: Vec<PlanStep> = Vec::new();
    let core = core_entities_exec();
    push_steps(&mut v, core.as_slice(), true);
    if actions {
        push_swap(&mut v, HaEntity::VirtualMediaSensor, HaEntity::VirtualMediaSelect);
        push_swap(&mut v, HaEntity::JigglerSensor, HaEntity::JigglerSwitch);
    } else {
        push_swap(&mut v, HaEntity::VirtualMediaSelect, HaEntity::VirtualMediaSensor);
        push_swap(&mut v, HaEntity::JigglerSwitch, HaEntity::JigglerSensor);
    }
    v.push((HaEntity::Reboot, actions));
    v.push((HaEntity::Firmware, true));
    let ghost head = v@;
    let atx = atx_entities_exec();
    let dc = dc_entities_exec();
    if same_text(extension, "atx-power") {
        let mut a = atx_plan_exec(actions);
        v.append(&mut a);
        push_steps(&mut v, dc.as_slice(), false);
    } else if same_text(extension, "dc-power") {
        let mut d = dc_plan_exec(actions, restore_known);
        v.append(&mut d);
        push_steps(&mut v, atx.as_slice(), false);
    } else {
        push_steps(&mut v, atx.as_slice(), false);
        push_steps(&mut v, dc.as_slice(), false);
    }
    assert(v@ =~= ha_plan(actions, extension@, restore_known));
    v
}

/// The steps that withdraw every entry.
pub fn removal_plan_exec() -> (r: Vec<PlanStep>)
    ensures
        r@ == removal_plan(),
{
    let mut v: Vec<PlanStep> = Vec::new();
    let core = core_entities_exec();
    let rest = vec![
        HaEntity::VirtualMediaSelect,
        HaEntity::VirtualMediaSensor,
        HaEntity::JigglerSwitch,
        HaEntity::JigglerSensor,
        HaEntity::Reboot,
        HaEntity::Firmware,
    ];
    let atx = atx_entities_exec();
    let dc = dc_entities_exec();
    push_steps(&mut v, core.as_slice(), false);
    push_steps(&mut v, rest.as_slice(), false);
    push_steps(&mut v, atx.as_slice(), false);
    push_steps(&mut v, dc.as_slice(), false);
    assert(v@ =~= removal_plan());
    v
}


// ---------------------------------------------------------------------------
// Laws of the plans
// ---------------------------------------------------------------------------
/// The entities that belong to the ATX extension.
pub open spec fn is_atx_entity(e: HaEntity) -> bool {
    atx_entities().contains(e)
}

/// The entities that belong to the DC extension.
pub open spec fn is_dc_entity(e: HaEntity) -> bool {
    dc_entities().contains(e)
}

/// The entities that act on the device or the host, as opposed to those
/// that only report.
pub open spec fn is_control(e: HaEntity) -> bool {
    ||| e == HaEntity::VirtualMediaSelect
    ||| e == HaEntity::JigglerSwitch
    ||| e == HaEntity::Reboot
    ||| e == HaEntity::AtxPowerShort
    ||| e == HaEntity::AtxPowerLong
    ||| e == HaEntity::AtxReset
    ||| e == HaEntity::DcPowerSwitch
    ||| e == HaEntity::DcRestoreSelect
}

proof fn lemma_not_in_extension(e: HaEntity)
    requires
        core_entities().contains(e) || e == HaEntity::VirtualMediaSelect || e
            == HaEntity::VirtualMediaSensor || e == HaEntity::JigglerSwitch || e
            == HaEntity::JigglerSensor || e == HaEntity::Reboot || e == HaEntity::Firmware,
    ensures
        !is_atx_entity(e),
        !is_dc_entity(e),
{
    if core_entities().contains(e) {
        let j = choose|j: int| 0 <= j < core_entities().len() && core_entities()[j] == e;
        assert(core_entities()[j] == e);
    }
    if atx_entities().contains(e) {
        let j = choose|j: int| 0 <= j < atx_entities().len() && atx_entities()[j] == e;
        assert(atx_entities()[j] == e);
    }
    if dc_entities().contains(e) {
        let j = choose|j: int| 0 <= j < dc_entities().len() && dc_entities()[j] == e;
        assert(dc_entities()[j] == e);
    }
}

/// Discovery announces only what the device can do: an entry of the ATX
/// extension is published only while that extension is active, an entry
/// of the DC extension only while that one is, and a control only while
/// actions are enabled.
pub proof fn lemma_plan_publishes_only_what_is_enabled(
    actions: bool,
    extension: Seq<char>,
    restore_known: bool,
    k: int,
)
    requires
        0 <= k < ha_plan(actions, extension, restore_known).len(),
        ha_plan(actions, extension, restore_known)[k].1,
    ensures
        is_atx_entity(ha_plan(actions, extension, restore_known)[k].0) ==> extension
            == "atx-power"@,
        is_dc_entity(ha_plan(actions, extension, restore_known)[k].0) ==> extension
            == "dc-power"@,
        is_control(ha_plan(actions, extension, restore_known)[k].0) ==> actions,
{
    let p = ha_plan(actions, extension, restore_known);
    let e = p[k].0;
    let core = publish_all(core_entities());
    let vm = if actions {
        swap(HaEntity::VirtualMediaSensor, HaEntity::VirtualMediaSelect)
    } else {
        swap(HaEntity::VirtualMediaSelect, HaEntity::VirtualMediaSensor)
    };
    let jig = if actions {
        swap(HaEntity::JigglerSensor, HaEntity::JigglerSwitch)
    } else {
        swap(HaEntity::JigglerSwitch, HaEntity::JigglerSensor)
    };
    let fixed = seq![(HaEntity::Reboot, actions), (HaEntity::Firmware, true)];
    let head = core + vm + jig + fixed;
    let tail = if extension == "atx-power"@ {
        atx_plan(actions) + withdraw_all(dc_entities())
    } else if extension == "dc-power"@ {
        dc_plan(actions, restore_known) + withdraw_all(atx_entities())
    } else {
        withdraw_all(atx_entities()) + withdraw_all(dc_entities())
    };
    assert(p =~= head + tail);
    if k < head.len() {
        assert(p[k] == head[k]);
        if k < core.len() {
            assert(head[k] == core[k]);
            assert(core_entities()[k] == e);
            assert(core_entities().contains(e));
        } else if k < core.len() + 2 {
            assert(head[k] == vm[k - core.len()]);
        } else if k < core.len() + 4 {
            assert(head[k] == jig[k - core.len() - 2]);
        } else {
            assert(head[k] == fixed[k - core.len() - 4]);
        }
        lemma_not_in_extension(e);
    } else {
        let t = k - head.len();
        assert(p[k] == tail[t]);
        if extension == "atx-power"@ {
            let a = atx_plan(actions);
            if t < a.len() {
                assert(tail[t] == a[t]);
            } else {
                assert(tail[t] == withdraw_all(dc_entities())[t - a.len()]);
            }
            assert(!is_dc_entity(e)) by {
                if dc_entities().contains(e) {
                    let j = choose|j: int| 0 <= j < dc_entities().len() && dc_entities()[j] == e;
                    assert(dc_entities()[j] == e);
                }
            }
        } else if extension == "dc-power"@ {
            let d = dc_plan(actions, restore_known);
            if t < d.len() {
                assert(tail[t] == d[t]);
                assert(is_dc_entity(e)) by {
                    let j = choose|j: int| 0 <= j < dc_entities().len() && dc_entities()[j] == e;
                    assert(dc_entities()[j] == e);
                }
            } else {
                assert(tail[t] == withdraw_all(atx_entities())[t - d.len()]);
            }
            assert(!is_atx_entity(e)) by {
                if atx_entities().contains(e) {
                    let j = choose|j: int| 0 <= j < atx_entities().len() && atx_entities()[j] == e;
                    assert(atx_entities()[j] == e);
                }
            }
        } else {
            let w = withdraw_all(atx_entities());
            if t < w.len() {
                assert(tail[t] == w[t]);
            } else {
                assert(tail[t] == withdraw_all(dc_entities())[t - w.len()]);
            }
        }
    }
}

/// Removing the discovery withdraws every entry the device can announce,
/// whatever was enabled when it was announced.
pub proof fn lemma_removal_withdraws_every_entity(e: HaEntity)
    ensures
        removal_plan().contains((e, false)),
{
    let all = core_entities() + seq![
        HaEntity::VirtualMediaSelect,
        HaEntity::VirtualMediaSensor,
        HaEntity::JigglerSwitch,
        HaEntity::JigglerSensor,
        HaEntity::Reboot,
        HaEntity::Firmware,
    ] + atx_entities() + dc_entities();
    let j: int = match e {
        HaEntity::Online => 0,
        HaEntity::VideoSignal => 1,
        HaEntity::VideoResolution => 2,
        HaEntity::VideoFps => 3,
        HaEntity::CloudConnected => 4,
        HaEntity::ActiveSessions => 5,
        HaEntity::UsbState => 6,
        HaEntity::IpAddress => 7,
        HaEntity::Hostname => 8,
        HaEntity::CpuLoad => 9,
        HaEntity::Temperature => 10,
        HaEntity::MemoryUsed => 11,
        HaEntity::StorageUsed => 12,
        HaEntity::StorageFree => 13,
        HaEntity::VirtualMediaSelect => 14,
        HaEntity::VirtualMediaSensor => 15,
        HaEntity::JigglerSwitch => 16,
        HaEntity::JigglerSensor => 17,
        HaEntity::Reboot => 18,
        HaEntity::Firmware => 19,
        HaEntity::PowerLed => 20,
        HaEntity::HddLed => 21,
        HaEntity::AtxPowerShort => 22,
        HaEntity::AtxPowerLong => 23,
        HaEntity::AtxReset => 24,
        HaEntity::DcVoltage => 25,
        HaEntity::DcCurrent => 26,
        HaEntity::DcPower => 27,
        HaEntity::DcPowerSwitch => 28,
        HaEntity::DcPowerSensor => 29,
        HaEntity::DcRestoreSelect => 30,
        HaEntity::DcRestoreSensor => 31,
    };
    assert(all[j] == e);
    assert(removal_plan()[j] == (e, false));
}


// ---------------------------------------------------------------------------
// Actions
// ---------------------------------------------------------------------------
/// What is sent for one step: a retained payload on an entry's topic, or
/// an empty retained message that withdraws the entry.
pub enum DiscoveryAction {
    Publish { topic: String, payload: HaDiscoveryPayload },
    Remove { topic: String },
}

/// What an action sends.
pub enum ActionView {
    Publish(Seq<char>, HaPayloadView),
    Remove(Seq<char>),
}

impl View for DiscoveryAction {
    type V = ActionView;

    open spec fn view(&self) -> ActionView {
        match self {
            DiscoveryAction::Publish { topic, payload } => ActionView::Publish(topic@, payload@),
            DiscoveryAction::Remove { topic } => ActionView::Remove(topic@),
        }
    }
}

/// What a list of actions sends.
pub open spec fn actions_view(v: Seq<DiscoveryAction>) -> Seq<ActionView> {
    v.map_values(|a: DiscoveryAction| a@)
}

/// The discovery topic of an entity of the device.
pub open spec fn entity_topic(e: HaEntity, c: DiscoveryContext) -> Seq<char> {
    "homeassistant/"@ + component(e) + "/rustkvm_"@ + c.device_id@ + "/"@ + object_id(e)
        + "/config"@
}

/// The action of a plan step: the entity's payload with its default entity
/// id set, or the withdrawal of its entry.
pub open spec fn step_action(st: PlanStep, c: DiscoveryContext, actions: bool, vm: Seq<Seq<char>>) -> ActionView {
    if st.1 {
        ActionView::Publish(
            entity_topic(st.0, c),
            HaPayloadView {
                default_entity_id: Some(
                    component(st.0) + ".rustkvm_"@ + c.device_id@ + "_"@ + object_id(st.0),
                ),
                ..entity_payload(st.0, c, actions, vm)
            },
        )
    } else {
        ActionView::Remove(entity_topic(st.0, c))
    }
}

/// The actions of a plan.
pub open spec fn plan_actions(steps: Seq<PlanStep>, c: DiscoveryContext, actions: bool, vm: Seq<Seq<char>>) -> Seq<ActionView> {
    steps.map_values(|st: PlanStep| step_action(st, c, actions, vm))
}

/// The action of one plan step.
pub fn step_action_exec(st: PlanStep, c: &DiscoveryContext, actions: bool, vm: &Vec<String>) -> (r: DiscoveryAction)
    ensures
        r@ == step_action(st, *c, actions, texts(vm@)),
{
    let (comp, obj) = entity_key(st.0);
    let topic = crate::mqtt::discovery_topic(comp, c.device_id.as_str(), obj);
    if st.1 {
        let mut payload = entity_payload_exec(st.0, c, actions, vm);
        payload.default_entity_id = Some(
            crate::mqtt::default_entity_id(comp, c.device_id.as_str(), obj),
        );
        DiscoveryAction::Publish { topic, payload }
    } else {
        DiscoveryAction::Remove { topic }
    }
}

/// The actions that carry out a plan, in its order.
pub fn plan_to_actions(steps: &Vec<PlanStep>, c: &DiscoveryContext, actions: bool, vm: &Vec<String>) -> (r: Vec<DiscoveryAction>)
    ensures
        actions_view(r@) == plan_actions(steps@, *c, actions, texts(vm@)),
{
    let mut r: Vec<DiscoveryAction> = Vec::new();
    let mut i: usize = 0;
    while i < steps.len()
        invariant
            i <= steps@.len(),
            actions_view(r@) == plan_actions(steps@.subrange(0, i as int), *c, actions, texts(vm@)),
        decreases steps@.len() - i,
    {
        let a = step_action_exec(steps[i], c, actions, vm);
        let ghost prev = r@;
        let ghost av = a@;
        r.push(a);
        proof {
            assert(plan_actions(steps@.subrange(0, i + 1), *c, actions, texts(vm@)) =~= plan_actions(
                steps@.subrange(0, i as int),
                *c,
                actions,
                texts(vm@),
            ).push(step_action(steps@[i as int], *c, actions, texts(vm@))));
            assert(actions_view(r@) =~= actions_view(prev).push(av));
        }
        i = i + 1;
    }
    assert(steps@.subrange(0, steps@.len() as int) =~= steps@);
    r
}

/// What announcing the device sends: the plan for whether actions are
/// enabled, which power extension is active, and whether the DC restore
/// mode is known (not negative), carried out for the device.
pub fn ha_discovery(c: &DiscoveryContext, actions: bool, extension: &str, dc_restore_state: i32, vm_options: &Vec<String>) -> (r: Vec<DiscoveryAction>)
    ensures
        actions_view(r@) == plan_actions(
            ha_plan(actions, extension@, dc_restore_state >= 0),
            *c,
            actions,
            texts(vm_options@),
        ),
{
    let steps = ha_plan_exec(actions, extension, dc_restore_state >= 0);
    plan_to_actions(&steps, c, actions, vm_options)
}

/// What withdrawing every entry sends.
pub fn remove_all_discovery(c: &DiscoveryContext) -> (r: Vec<DiscoveryAction>)
    ensures
        actions_view(r@) == plan_actions(removal_plan(), *c, false, Seq::empty()),
{
    let steps = removal_plan_exec();
    let none: Vec<String> = Vec::new();
    assert(texts(none@) =~= Seq::<Seq<char>>::empty());
    plan_to_actions(&steps, c, false, &none)
}

/// The state topics cleared, after every discovery entry, when the
/// integration is switched off.
pub open spec fn state_topics(base: Seq<char>) -> Seq<Seq<char>> {
    seq![
        base + "/status"@,
        base + "/video/state"@,
        base + "/cloud/state"@,
        base + "/sessions/state"@,
        base + "/usb/state"@,
        base + "/jiggler/state"@,
        base + "/network/state"@,
        base + "/system/state"@,
        base + "/virtual_media/state"@,
        base + "/update/state"@,
        base + "/atx/state"@,
        base + "/dc/state"@,
    ]
}

/// The state topics of a base topic, in the order they are cleared.
pub fn cleanup_state_topics(base: &str) -> (r: Vec<String>)
    ensures
        texts(r@) == state_topics(base@),
{
    let mut r: Vec<String> = Vec::new();
    r.push(concat(base, "/status"));
    r.push(concat(base, "/video/state"));
    r.push(concat(base, "/cloud/state"));
    r.push(concat(base, "/sessions/state"));
    r.push(concat(base, "/usb/state"));
    r.push(concat(base, "/jiggler/state"));
    r.push(concat(base, "/network/state"));
    r.push(concat(base, "/system/state"));
    r.push(concat(base, "/virtual_media/state"));
    r.push(concat(base, "/update/state"));
    r.push(concat(base, "/atx/state"));
    r.push(concat(base, "/dc/state"));
    assert(texts(r@) =~= state_topics(base@));
    r
}

} // verus!
