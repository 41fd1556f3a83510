use rustkvm::config::{
    hardware_path_warning, is_blank, is_valid_usb_id, Config, ConfigError, ConfigPersistence,
    KeyboardMacro, KeyboardMacroStep, MacroError, StepError, DEFAULT_CONFIG_PATH,
};

fn step(keys: usize, delay: u32) -> KeyboardMacroStep {
    KeyboardMacroStep { keys: (0..keys).map(|i| format!("Key{}", i)).collect(), modifiers: vec![], delay }
}

fn mac(name: &str, steps: Vec<KeyboardMacroStep>) -> KeyboardMacro {
    KeyboardMacro { id: "m".to_string(), name: name.to_string(), steps, sort_order: None }
}

#[test]
fn defaults_are_as_documented() {
    let c = Config::defaults("dev1".to_string());
    assert_eq!(c.cloud_url, "https://api.rustkvm.com");
    assert_eq!(c.display_rotation, "270");
    assert_eq!(c.keyboard_layout, "en_US");
    assert_eq!(c.network_config.ipv4_mode, "dhcp");
    assert_eq!(c.network_config.time_sync_parallel, 4);
    assert_eq!(c.network_config.time_sync_ordering, vec!["ntp".to_string(), "http".to_string()]);
    assert_eq!(c.device_id, "dev1");
    assert!(c.is_setup_required());
}

#[test]
fn default_config_validates() {
    let mut c = Config::defaults("d".to_string());
    assert_eq!(c.validate(), Ok(()));
}

#[test]
fn step_validation_clamps_delay() {
    let mut s = step(2, 10);
    assert_eq!(s.validate(), Ok(()));
    assert_eq!(s.delay, 50);
    let mut s = step(2, 5000);
    assert_eq!(s.validate(), Ok(()));
    assert_eq!(s.delay, 2000);
    let mut s = step(11, 10);
    assert_eq!(s.validate(), Err(StepError::TooManyKeys));
    assert_eq!(s.delay, 10);
}

#[test]
fn macro_validation_errors() {
    assert_eq!(mac("  ", vec![step(1, 100)]).validate(), Err(MacroError::EmptyName));
    assert_eq!(mac("m", vec![]).validate(), Err(MacroError::NoSteps));
    assert_eq!(mac("m", (0..11).map(|_| step(1, 100)).collect()).validate(), Err(MacroError::TooManySteps));
    let mut m = mac("m", vec![step(1, 1), step(11, 1), step(1, 1)]);
    assert_eq!(m.validate(), Err(MacroError::InvalidStep(1, StepError::TooManyKeys)));
    assert_eq!(m.steps[0].delay, 50);
    assert_eq!(m.steps[2].delay, 1);
}

#[test]
fn config_validation_reports_every_problem_in_order() {
    let mut c = Config::defaults("d".to_string());
    c.display_rotation = "45".to_string();
    c.tls_mode = "weird".to_string();
    c.usb_config.vendor_id = "0x12345".to_string();
    c.usb_config.product_id = "zz".to_string();
    c.local_auth_mode = "other".to_string();
    c.keyboard_macros = vec![mac("ok", vec![step(1, 10)]), mac("", vec![step(1, 10)])];
    c.network_config.time_sync_parallel = 40;
    assert_eq!(
        c.validate(),
        Err(vec![
            ConfigError::InvalidMacro(1, MacroError::EmptyName),
            ConfigError::InvalidDisplayRotation("45".to_string()),
            ConfigError::InvalidTlsMode("weird".to_string()),
            ConfigError::InvalidVendorId("0x12345".to_string()),
            ConfigError::InvalidProductId("zz".to_string()),
            ConfigError::InvalidAuthMode,
        ])
    );
    assert_eq!(c.network_config.time_sync_parallel, 16);
    assert_eq!(c.keyboard_macros[0].steps[0].delay, 50);
}

#[test]
fn refused_rotation_is_named_in_its_message() {
    let mut c = Config::defaults("d".to_string());
    c.display_rotation = "45".to_string();
    c.network_config.time_sync_parallel = 0;
    let errors = c.validate().unwrap_err();
    let texts: Vec<String> = errors.iter().map(|e| e.message()).collect();
    assert_eq!(texts, vec!["Invalid display rotation '45', must be 0/90/180/270".to_string()]);
    assert_eq!(c.network_config.time_sync_parallel, 1);
}

#[test]
fn config_error_messages() {
    assert_eq!(ConfigError::TooManyMacros.message(), "Too many macros (max 25)");
    assert_eq!(
        ConfigError::InvalidMacro(0, MacroError::InvalidStep(2, StepError::TooManyKeys)).message(),
        "Invalid macro 1: Invalid step 3: Too many keys in step (max 10)"
    );
    assert_eq!(ConfigError::InvalidMacro(11, MacroError::EmptyName).message(), "Invalid macro 12: Macro name cannot be empty");
    assert_eq!(MacroError::NoSteps.message(), "Macro must have at least one step");
    assert_eq!(MacroError::TooManySteps.message(), "Too many steps in macro (max 10)");
    assert_eq!(
        ConfigError::InvalidTlsMode("x".to_string()).message(),
        "Invalid tls_mode 'x', must be '', 'self-signed' or 'custom'"
    );
    assert_eq!(ConfigError::InvalidVendorId("0xg".to_string()).message(), "Invalid USB vendor_id '0xg'");
    assert_eq!(ConfigError::InvalidProductId("".to_string()).message(), "Invalid USB product_id ''");
    assert_eq!(
        ConfigError::InvalidAuthMode.message(),
        "Invalid auth mode, must be 'password' or 'noPassword'"
    );
}

#[test]
fn validating_twice_reports_the_same() {
    let mut c = Config::defaults("d".to_string());
    c.keyboard_macros = vec![mac("a", vec![step(1, 3), step(12, 3)])];
    c.network_config.time_sync_parallel = 0;
    let first = c.validate();
    let delays: Vec<u32> = c.keyboard_macros[0].steps.iter().map(|s| s.delay).collect();
    let second = c.validate();
    assert_eq!(first, second);
    let again: Vec<u32> = c.keyboard_macros[0].steps.iter().map(|s| s.delay).collect();
    assert_eq!(delays, again);
    assert_eq!(c.network_config.time_sync_parallel, 1);
}

#[test]
fn too_many_macros() {
    let mut c = Config::defaults("d".to_string());
    c.keyboard_macros = (0..26).map(|_| mac("m", vec![step(1, 100)])).collect();
    assert_eq!(c.validate(), Err(vec![ConfigError::TooManyMacros]));
}

#[test]
fn usb_ids_and_blank_text() {
    assert!(is_valid_usb_id("0x1d6b"));
    assert!(is_valid_usb_id("0X1D6B"));
    assert!(is_valid_usb_id("1d6b"));
    assert!(!is_valid_usb_id("0x"));
    assert!(!is_valid_usb_id("12345"));
    assert!(!is_valid_usb_id("0xg1"));
    assert!(!is_valid_usb_id("+1"));
    assert!(!is_valid_usb_id("0x+1ab"));
    assert!(is_blank(" \t"));
    assert!(!is_blank(" a "));
}

#[test]
fn persistence_path() {
    assert_eq!(ConfigPersistence::new().path(), DEFAULT_CONFIG_PATH);
    assert_eq!(ConfigPersistence::with_path("/tmp/c.toml").path(), "/tmp/c.toml");
}

#[test]
fn hardware_path_warnings() {
    assert_eq!(hardware_path_warning("/dev/video0", "Video capture device", true), None);
    assert_eq!(
        hardware_path_warning("/dev/video0", "Video capture device", false),
        Some("Hardware path not found: /dev/video0 (Video capture device)".to_string())
    );
    assert_eq!(hardware_path_warning("/dev/video1", "Secondary", false), None);
    assert_eq!(hardware_path_warning("/usr/bin/dropbear.sh", "SSH", false), None);
}
