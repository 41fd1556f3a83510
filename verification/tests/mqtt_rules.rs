use rustkvm::mqtt::{
    build_topic, client_id, connection_base_topic, connection_port, decide_command,
    default_entity_id, discovery_topic, masked_settings, prepare_settings, settings_cleanup,
    test_client_id, validate_base_topic, virtual_media_command_exec, AtxPublish, AtxPublisher,
    MqttCommand, MqttConfig, MqttConfigError, SettingsCleanup, VirtualMediaCommand,
    MQTT_PASSWORD_MASK,
};
use rustkvm::power::atx::AtxState;

fn cfg() -> MqttConfig {
    MqttConfig { enabled: true, broker: "broker".to_string(), ..MqttConfig::default() }
}

#[test]
fn mqtt_defaults() {
    let c = MqttConfig::default();
    assert!(!c.enabled);
    assert_eq!(c.port, 1883);
    assert_eq!(c.base_topic, "rustkvm");
    assert!(c.enable_ha_discovery);
    assert!(!c.enable_actions);
}

#[test]
fn base_topic_checks() {
    assert_eq!(validate_base_topic("home/kvm"), Ok(()));
    assert_eq!(validate_base_topic("a/+/b"), Err(MqttConfigError::TopicWildcard));
    assert_eq!(validate_base_topic("a#"), Err(MqttConfigError::TopicWildcard));
    assert_eq!(validate_base_topic("a b"), Err(MqttConfigError::TopicSpace));
    assert_eq!(validate_base_topic(""), Err(MqttConfigError::TopicEmpty));
}

#[test]
fn settings_checks() {
    assert_eq!(cfg().validate(), Ok(()));
    let c = MqttConfig { broker: String::new(), ..cfg() };
    assert_eq!(c.validate(), Err(MqttConfigError::BrokerRequired));
    let c = MqttConfig { port: 0, ..cfg() };
    assert_eq!(c.validate(), Err(MqttConfigError::InvalidPort));
    let c = MqttConfig { base_topic: "x y".to_string(), ..cfg() };
    assert_eq!(c.validate(), Err(MqttConfigError::TopicSpace));
}

#[test]
fn password_is_masked_and_restored() {
    let c = MqttConfig { password: "secret".to_string(), ..cfg() };
    let m = masked_settings(c);
    assert_eq!(m.password, MQTT_PASSWORD_MASK);
    let p = prepare_settings(m, "secret").unwrap();
    assert_eq!(p.password, "secret");
    let empty = masked_settings(cfg());
    assert_eq!(empty.password, "");
}

#[test]
fn prepared_settings_get_defaults() {
    let s = MqttConfig { port: 0, base_topic: String::new(), password: "new".to_string(), ..cfg() };
    let p = prepare_settings(s, "old").unwrap();
    assert_eq!(p.port, 1883);
    assert_eq!(p.base_topic, "rustkvm");
    assert_eq!(p.password, "new");
    let bad = MqttConfig { broker: String::new(), ..cfg() };
    assert!(matches!(prepare_settings(bad, ""), Err(MqttConfigError::BrokerRequired)));
    let wild = MqttConfig { base_topic: "a/#".to_string(), ..cfg() };
    assert!(matches!(prepare_settings(wild, ""), Err(MqttConfigError::TopicWildcard)));
}

#[test]
fn cleanup_on_settings_change() {
    let off = MqttConfig { enabled: false, ..cfg() };
    assert_eq!(settings_cleanup(true, true, &off), SettingsCleanup::AllTopics);
    let no_disc = MqttConfig { enable_ha_discovery: false, ..cfg() };
    assert_eq!(settings_cleanup(true, true, &no_disc), SettingsCleanup::Discovery);
    assert_eq!(settings_cleanup(false, false, &cfg()), SettingsCleanup::Nothing);
}

#[test]
fn topics_and_ids() {
    assert_eq!(build_topic("rustkvm/dev", &["atx", "state"]), "rustkvm/dev/atx/state");
    assert_eq!(build_topic("b", &[]), "b");
    assert_eq!(connection_base_topic("", "dev1"), Ok("rustkvm/dev1".to_string()));
    assert_eq!(connection_base_topic("home/dev1/kvm", "dev1"), Ok("home/dev1/kvm".to_string()));
    assert_eq!(connection_base_topic("a+", "d"), Err(MqttConfigError::TopicWildcard));
    assert_eq!(connection_base_topic("a b", "d"), Err(MqttConfigError::TopicSpace));
    assert_eq!(connection_port(0), 1883);
    assert_eq!(connection_port(8883), 8883);
    assert_eq!(client_id("d1"), "rustkvm-d1");
    assert_eq!(test_client_id("d1"), "rustkvm-d1-test");
    assert_eq!(discovery_topic("switch", "d1", "jiggler"), "homeassistant/switch/rustkvm_d1/jiggler/config");
    assert_eq!(default_entity_id("switch", "d1", "jiggler"), "switch.rustkvm_d1_jiggler");
}

#[test]
fn commands_are_decided_from_topic_and_payload() {
    let b = "rustkvm/d1";
    assert!(matches!(decide_command(b, true, "rustkvm/d1/dc_power/set", " on "), MqttCommand::DcPower(Some(true))));
    assert!(matches!(decide_command(b, true, "rustkvm/d1/dc_power/set", "OFF"), MqttCommand::DcPower(Some(false))));
    assert!(matches!(decide_command(b, true, "rustkvm/d1/dc_power/set", "maybe"), MqttCommand::DcPower(None)));
    assert!(matches!(decide_command(b, true, "rustkvm/d1/dc_restore/set", "Last_State"), MqttCommand::DcRestore(Some(2))));
    assert!(matches!(decide_command(b, true, "rustkvm/d1/atx_power_short/set", ""), MqttCommand::AtxPower(200)));
    assert!(matches!(decide_command(b, true, "rustkvm/d1/atx_power_long/set", ""), MqttCommand::AtxPower(5000)));
    assert!(matches!(decide_command(b, true, "rustkvm/d1/atx_reset/set", ""), MqttCommand::AtxReset(500)));
    assert!(matches!(decide_command(b, true, "rustkvm/d1/jiggler/set", "on"), MqttCommand::Jiggler(Some(true))));
    assert!(matches!(decide_command(b, true, "rustkvm/d1/reboot/set", ""), MqttCommand::Reboot));
    assert!(matches!(decide_command(b, true, "rustkvm/d1/update/install", ""), MqttCommand::UpdateInstall));
    assert!(matches!(decide_command(b, false, "rustkvm/d1/reboot/set", ""), MqttCommand::ActionsDisabled));
    assert!(matches!(decide_command(b, true, "rustkvm/d1/other/set", ""), MqttCommand::Unknown));
    assert!(matches!(
        decide_command(b, true, "rustkvm/d1/virtual_media/set", " disk.iso "),
        MqttCommand::VirtualMedia(VirtualMediaCommand::Mount(ref n)) if n == "disk.iso"
    ));
}

#[test]
fn virtual_media_payloads() {
    assert!(matches!(virtual_media_command_exec("-- no media --"), VirtualMediaCommand::Unmount));
    assert!(matches!(virtual_media_command_exec("../etc/passwd"), VirtualMediaCommand::InvalidName));
    assert!(matches!(virtual_media_command_exec("a/b.iso"), VirtualMediaCommand::InvalidName));
    assert!(matches!(virtual_media_command_exec("a\\b.iso"), VirtualMediaCommand::InvalidName));
}

#[test]
fn atx_states_are_debounced() {
    let on_idle = AtxState { power: true, hdd: false };
    let on_busy = AtxState { power: true, hdd: true };
    let mut p = AtxPublisher::new(0);
    assert_eq!(p.on_state(true, on_idle), AtxPublish::Publish);
    assert_eq!(p.on_state(false, on_idle), AtxPublish::Skip);
    let mut p = AtxPublisher::new(300);
    assert_eq!(p.on_state(true, on_idle), AtxPublish::PublishAndRemember);
    assert_eq!(p.on_state(true, on_idle), AtxPublish::Skip);
    assert_eq!(p.on_state(true, on_busy), AtxPublish::PublishAndRemember);
    assert_eq!(p.on_state(true, on_busy), AtxPublish::Skip);
    assert_eq!(p.on_state(true, on_idle), AtxPublish::PublishAfter(300));
    assert!(p.timer_active);
    assert_eq!(p.on_state(true, on_idle), AtxPublish::Skip);
    assert_eq!(p.on_state(true, AtxState { power: false, hdd: false }), AtxPublish::PublishAndRemember);
    assert!(!p.timer_active);
    assert_eq!(p.pending_state, None);
}
