use rustkvm::api::media::{VirtualMediaMode, VirtualMediaSource, VirtualMediaState};
use rustkvm::discovery::{
    cleanup_state_topics, entity_key, ha_device_info, ha_discovery, ha_plan_exec,
    network_config_url, remove_all_discovery, removal_plan_exec, sw_version_string,
    DiscoveryAction, DiscoveryContext, HaEntity,
};
use rustkvm::mqtt::MqttConfig;
use rustkvm::mqtt_link::{
    periodic_update, status_without_link, test_connection_params, test_connection_result,
    vm_mount_info, vm_options_update, BrokerEvent, LinkAction, MqttLink, PeriodicAction,
    UpdatePublisher, UpdateStatus,
};

fn ctx() -> DiscoveryContext {
    DiscoveryContext {
        device_id: "d1".to_string(),
        base_topic: "rustkvm/d1".to_string(),
        device: ha_device_info("d1", "App: 1.0", "http://10.0.0.2"),
    }
}

fn topics(actions: &[DiscoveryAction]) -> Vec<(String, bool)> {
    actions
        .iter()
        .map(|a| match a {
            DiscoveryAction::Publish { topic, .. } => (topic.clone(), true),
            DiscoveryAction::Remove { topic } => (topic.clone(), false),
        })
        .collect()
}

#[test]
fn link_follows_broker_events() {
    let mut l = MqttLink::new();
    assert!(matches!(l.on_event(BrokerEvent::Error("refused".to_string())), LinkAction::Backoff));
    assert!(!l.connected);
    assert_eq!(l.status().error.as_deref(), Some("refused"));
    assert!(matches!(l.on_event(BrokerEvent::ConnAck), LinkAction::Connected));
    assert!(l.connected);
    assert_eq!(l.status().error, None);
    let a = l.on_event(BrokerEvent::Publish { topic: "t".to_string(), payload: "p".to_string() });
    assert!(matches!(a, LinkAction::Command { ref topic, ref payload } if topic == "t" && payload == "p"));
    assert!(matches!(l.on_event(BrokerEvent::Other), LinkAction::Nothing));
    assert!(matches!(l.on_event(BrokerEvent::Disconnect), LinkAction::Nothing));
    assert!(!l.status().connected);
    l.close();
    assert!(!status_without_link().connected);
}

#[test]
fn periodic_updates_follow_the_extension() {
    assert!(periodic_update(false, "atx-power").is_empty());
    assert_eq!(
        periodic_update(true, "atx-power"),
        vec![PeriodicAction::Status, PeriodicAction::AtxState, PeriodicAction::ExtendedStates]
    );
    assert_eq!(
        periodic_update(true, "dc-power"),
        vec![PeriodicAction::Status, PeriodicAction::DcState, PeriodicAction::ExtendedStates]
    );
    assert_eq!(periodic_update(true, ""), vec![PeriodicAction::Status, PeriodicAction::ExtendedStates]);
}

#[test]
fn test_connection_parameters() {
    let s = MqttConfig { broker: String::new(), ..MqttConfig::default() };
    let e = test_connection_params(&s, "x").err().unwrap();
    assert!(!e.success);
    assert_eq!(e.error.as_deref(), Some("broker address is required"));
    let s = MqttConfig {
        broker: "b".to_string(),
        port: 0,
        password: "********".to_string(),
        ..MqttConfig::default()
    };
    let p = test_connection_params(&s, "kept").ok().unwrap();
    assert_eq!(p.port, 1883);
    assert_eq!(p.password, "kept");
    assert!(test_connection_result(false).success);
    assert_eq!(test_connection_result(true).error.as_deref(), Some("connection timed out"));
}

#[test]
fn update_state_is_cached_for_ten_minutes() {
    let mut u = UpdatePublisher::new();
    let st = UpdateStatus {
        installed_version: "1.0".to_string(),
        latest_version: "1.1".to_string(),
        update_available: true,
    };
    let p = u.publish_update_state(1_000, false, "1.0", Some(st));
    assert_eq!(p.latest_version, "1.1");
    assert!(!p.in_progress);
    let p = u.publish_update_state(2_000, false, "1.0", None);
    assert_eq!(p.latest_version, "1.1");
    let p = u.publish_update_state(3_000, true, "1.0", None);
    assert!(p.in_progress && p.with_progress);
    assert_eq!(p.latest_version, "1.1");
    assert_eq!(u.last_check_ms, None);
    let p = u.publish_update_state(700_000, false, "1.0", None);
    assert_eq!(p.latest_version, "1.0");
    assert_eq!(u.last_check_ms, Some(700_000));
}

#[test]
fn virtual_media_info() {
    assert_eq!(vm_mount_info(None), ("-- no media --".to_string(), "none".to_string()));
    let s = VirtualMediaState {
        source: VirtualMediaSource::Http,
        mode: VirtualMediaMode::Disk,
        filename: None,
        url: Some("http://x/a.iso".to_string()),
        size: 0,
    };
    assert_eq!(vm_mount_info(Some(&s)), ("http://x/a.iso".to_string(), "http".to_string()));
    let s = VirtualMediaState { mode: VirtualMediaMode::Cdrom, filename: Some("a.iso".to_string()), ..s };
    assert_eq!(vm_mount_info(Some(&s)).1, "cdrom");
}

#[test]
fn virtual_media_options_are_announced_on_change() {
    let mut last: Vec<String> = vec![];
    let imgs = vec!["-- no media --".to_string(), "a.iso".to_string()];
    assert_eq!(vm_options_update(&mut last, imgs.clone(), "disk", "a.iso"), Some(imgs.clone()));
    assert_eq!(vm_options_update(&mut last, imgs.clone(), "disk", "a.iso"), None);
    let with_url = vm_options_update(&mut last, imgs.clone(), "url", "http://x").unwrap();
    assert_eq!(with_url.last().map(|s| s.as_str()), Some("http://x"));
    assert_eq!(last.len(), 3);
}

#[test]
fn device_block_and_helpers() {
    let d = ha_device_info("d1", "", "");
    assert_eq!(d.name, "RustKVM d1");
    assert_eq!(d.sw_version, None);
    assert_eq!(d.configuration_url, None);
    assert_eq!(d.serial_number.as_deref(), Some("d1"));
    assert_eq!(network_config_url(Some("10.0.0.2")), "http://10.0.0.2");
    assert_eq!(network_config_url(Some("")), "");
    assert_eq!(network_config_url(None), "");
    assert_eq!(sw_version_string("1.2.3"), "App: 1.2.3");
    assert_eq!(entity_key(HaEntity::DcPowerSwitch), ("switch", "dc_power"));
}

#[test]
fn discovery_publishes_only_the_active_extension() {
    let acts = ha_discovery(&ctx(), true, "atx-power", 0, &vec![]);
    let t = topics(&acts);
    assert!(t.contains(&("homeassistant/button/rustkvm_d1/atx_reset/config".to_string(), true)));
    assert!(t.contains(&("homeassistant/switch/rustkvm_d1/dc_power/config".to_string(), false)));
    assert!(t.contains(&("homeassistant/binary_sensor/rustkvm_d1/online/config".to_string(), true)));
    for (topic, published) in &t {
        if topic.contains("/dc_") {
            assert!(!published);
        }
    }
}

#[test]
fn discovery_without_actions_publishes_no_controls() {
    let acts = ha_discovery(&ctx(), false, "dc-power", 1, &vec![]);
    let t = topics(&acts);
    assert!(t.contains(&("homeassistant/switch/rustkvm_d1/dc_power/config".to_string(), false)));
    assert!(t.contains(&("homeassistant/button/rustkvm_d1/reboot/config".to_string(), false)));
    for a in &acts {
        if let DiscoveryAction::Publish { payload, .. } = a {
            assert!(payload.command_topic.is_none(), "control published: {}", payload.name);
        }
    }
}

#[test]
fn plans_have_the_expected_shape() {
    let p = ha_plan_exec(true, "none", true);
    assert_eq!(p[0], (HaEntity::Online, true));
    assert_eq!(p.len(), 14 + 6 + 5 + 7);
    let r = removal_plan_exec();
    assert_eq!(r.len(), 32);
    assert!(r.iter().all(|s| !s.1));
    let removed = remove_all_discovery(&ctx());
    assert_eq!(removed.len(), 32);
    assert!(removed.iter().all(|a| matches!(a, DiscoveryAction::Remove { .. })));
}

#[test]
fn state_topics_cleared() {
    let t = cleanup_state_topics("rustkvm/d1");
    assert_eq!(t.len(), 12);
    assert_eq!(t[0], "rustkvm/d1/status");
    assert_eq!(t[11], "rustkvm/d1/dc/state");
}
