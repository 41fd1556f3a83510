use rustkvm::api::hid::{
    get_key_down_state, set_keyboard_macros, KeyboardLayout, KeyboardLayoutParams, MacroInput,
    MacrosError, StepInput,
};
use rustkvm::api::network::{
    fetched_text, get_network_ip_address, get_network_settings, network_state_response,
    public_ip_response, renew_dhcp_lease, set_network_settings, NetworkSettingsParams,
    NetworkSettingsResponse,
};
use rustkvm::api::usb::{
    emulation_probe_path, emulation_switch_path, get_usb_config, get_usb_devices,
    get_usb_emulation_state, set_usb_device_state, UsbDeviceStateParams, UsbEmulationParams,
};
use rustkvm::config::MacroError;
use rustkvm::hid::KeysDownState;
use rustkvm::network::get_network_state;

fn step(keys: &[&str], delay: Option<u64>) -> StepInput {
    StepInput::Object {
        keys: Some(keys.iter().map(|k| Some(k.to_string())).collect()),
        modifiers: None,
        delay,
    }
}

fn input(name: Option<&str>, steps: Option<Vec<StepInput>>) -> MacroInput {
    MacroInput {
        is_object: true,
        id: None,
        fallback_id: "macro-1".to_string(),
        name: name.map(|s| s.to_string()),
        sort_order: None,
        steps,
    }
}

#[test]
fn key_down_state() {
    let r = get_key_down_state(None);
    assert_eq!(r.modifier, 0);
    assert_eq!(r.keys, vec![0; 6]);
    let s = KeysDownState { modifier: 3, keys: [4, 5, 0, 0, 0, 0] };
    let r = get_key_down_state(Some(&s));
    assert_eq!(r.modifier, 3);
    assert_eq!(r.keys, vec![4, 5, 0, 0, 0, 0]);
}

#[test]
fn keyboard_layouts() {
    let mut l = KeyboardLayout::new();
    assert_eq!(l.get_keyboard_layout(), "us");
    assert_eq!(l.set_keyboard_layout(&KeyboardLayoutParams { layout: "de".to_string() }), Ok(()));
    assert_eq!(l.get_keyboard_layout(), "de");
    assert_eq!(l.set_keyboard_layout(&KeyboardLayoutParams { layout: "xx".to_string() }), Err("xx".to_string()));
    assert_eq!(l.get_keyboard_layout(), "de");
}

#[test]
fn macros_are_built_and_checked() {
    let ms = vec![input(Some("Hello"), Some(vec![step(&["KeyH"], Some(10)), StepInput::NotObject, step(&["KeyI"], None)]))];
    let out = set_keyboard_macros(&ms).unwrap();
    assert_eq!(out.len(), 1);
    assert_eq!(out[0].id, "macro-1");
    assert_eq!(out[0].sort_order, Some(1));
    assert_eq!(out[0].steps.len(), 2);
    assert_eq!(out[0].steps[0].keys, vec!["KeyH".to_string()]);
    assert_eq!(out[0].steps[0].delay, 50);
    assert_eq!(out[0].steps[1].delay, 50);
}

#[test]
fn macro_list_errors() {
    let too_many: Vec<MacroInput> = (0..26).map(|_| input(Some("m"), Some(vec![step(&["A"], None)]))).collect();
    assert!(matches!(set_keyboard_macros(&too_many), Err(MacrosError::TooMany)));
    let mut not_obj = input(Some("m"), None);
    not_obj.is_object = false;
    assert!(matches!(set_keyboard_macros(&vec![not_obj]), Err(MacrosError::NotObject(0))));
    let empty = input(Some("m"), Some(vec![]));
    assert!(matches!(
        set_keyboard_macros(&vec![input(Some("a"), Some(vec![step(&["A"], None)])), empty]),
        Err(MacrosError::EmptySteps(1))
    ));
    assert!(matches!(
        set_keyboard_macros(&vec![input(None, Some(vec![step(&["A"], None)]))]),
        Err(MacrosError::Invalid(0, MacroError::EmptyName))
    ));
    assert!(matches!(
        set_keyboard_macros(&vec![input(Some("n"), None)]),
        Err(MacrosError::Invalid(0, MacroError::NoSteps))
    ));
}

#[test]
fn network_answers() {
    assert_eq!(get_network_ip_address("10.0.0.2", "old"), "10.0.0.2");
    assert_eq!(get_network_ip_address("", "old"), "old");
    let s = get_network_state(None);
    let r = network_state_response(&s);
    assert!(!r.online);
    assert_eq!(r.gateway, None);
    assert!(r.dns.is_empty());
    assert!(get_network_settings("dhcp").dhcp_enabled);
    assert!(!get_network_settings("static").dhcp_enabled);
    let p = NetworkSettingsParams {
        settings: NetworkSettingsResponse { dhcp_enabled: false, static_ip: None, gateway: None, dns: vec![] },
    };
    assert_eq!(set_network_settings(&p, "dhcp"), ("static", true));
    assert_eq!(set_network_settings(&p, "static"), ("static", false));
    assert_eq!(renew_dhcp_lease("eth0"), vec!["-i", "eth0", "-q", "-n", "-t", "3"]);
    assert_eq!(fetched_text(Some(" 1.2.3.4\n")), Some("1.2.3.4".to_string()));
    assert_eq!(fetched_text(Some("  ")), None);
    assert_eq!(fetched_text(None), None);
    let ip = public_ip_response(Some("1.2.3.4".to_string()), Some("1.2.3.4".to_string()));
    assert_eq!(ip.ipv6, None);
    let ip = public_ip_response(None, Some("2001::1".to_string()));
    assert_eq!(ip.ipv6.as_deref(), Some("2001::1"));
}

#[test]
fn usb_answers() {
    let d = get_usb_devices();
    assert!(d.absolute_mouse && !d.relative_mouse);
    assert_eq!(set_usb_device_state(&UsbDeviceStateParams { device: "keyboard".to_string(), enabled: true }), Ok(()));
    assert_eq!(
        set_usb_device_state(&UsbDeviceStateParams { device: "joystick".to_string(), enabled: true }),
        Err("joystick".to_string())
    );
    assert_eq!(emulation_probe_path("fc000000.usb"), "/sys/bus/platform/drivers/dwc3/fc000000.usb");
    assert!(get_usb_emulation_state(Some("u"), true));
    assert!(!get_usb_emulation_state(None, true));
    assert_eq!(emulation_switch_path(&UsbEmulationParams { enabled: false }), "/sys/bus/platform/drivers/dwc3/unbind");
    assert!(!get_usb_config().serial_console);
}
