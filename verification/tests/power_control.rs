use rustkvm::power::atx::{
    press_atx_power_button, press_atx_reset_button, read_hw_state_exec, set_atx_power_action,
    AtxControl, AtxError, AtxPress, AtxState, ATX_POWER_PIN, ATX_RESET_PIN,
};
use rustkvm::power::dc::{
    dc_power_gpio, is_supported_supply_type, mount_dc_control, set_active_extension,
    unmount_dc_control, DcControl, DcError, PowerExtension,
};
use rustkvm::power::gpio::{gpio_path, parse_gpio_value, GpioError, GpioOp};

#[test]
fn gpio_paths_and_values() {
    assert_eq!(gpio_path(124, "value"), "/sys/class/gpio/gpio124/value");
    assert_eq!(gpio_path(0, "direction"), "/sys/class/gpio/gpio0/direction");
    assert_eq!(parse_gpio_value("1\n"), Ok(true));
    assert_eq!(parse_gpio_value(" 0 "), Ok(false));
    assert_eq!(parse_gpio_value("2"), Err(GpioError::UnexpectedValue));
    assert_eq!(parse_gpio_value(""), Err(GpioError::UnexpectedValue));
}

#[test]
fn atx_mount_and_unmount_plan_lines() {
    let mut c = AtxControl::new();
    let ops = c.mount_atx_control();
    assert_eq!(ops.len(), 14);
    assert_eq!(ops[0], GpioOp::Export(124));
    assert_eq!(ops[3], GpioOp::Write(124, false));
    assert_eq!(ops[13], GpioOp::Direction(127, false));
    assert!(c.mount_atx_control().is_empty());
    let off = c.unmount_atx_control();
    assert_eq!(off.len(), 6);
    assert_eq!(off[5], GpioOp::Unexport(127));
    assert!(c.unmount_atx_control().is_empty());
}

#[test]
fn atx_state_is_active_low() {
    let mut c = AtxControl::new();
    assert_eq!(c.leds, AtxState { power: false, hdd: false });
    assert_eq!(c.get_atx_state(Ok(false), Ok(true)), Err(AtxError::NotMounted));
    assert_eq!(c.leds, AtxState { power: false, hdd: false });
    c.mount_atx_control();
    assert_eq!(c.get_atx_state(Ok(false), Ok(true)), Ok(AtxState { power: true, hdd: false }));
    assert_eq!(c.leds, AtxState { power: true, hdd: false });
    assert_eq!(
        c.get_atx_state(Err(GpioError::UnexpectedValue), Ok(true)),
        Err(AtxError::Gpio(GpioError::UnexpectedValue))
    );
    assert_eq!(c.leds, AtxState { power: true, hdd: false });
    assert_eq!(c.get_atx_state(Ok(true), Ok(false)), Ok(AtxState { power: false, hdd: true }));
    assert_eq!(c.leds, AtxState { power: false, hdd: true });
    assert_eq!(read_hw_state_exec(true, false), AtxState { power: false, hdd: true });
}

#[test]
fn atx_actions() {
    assert_eq!(set_atx_power_action("power-short"), Ok(AtxPress { pin: ATX_POWER_PIN, duration_ms: 200 }));
    assert_eq!(set_atx_power_action("power-long"), Ok(AtxPress { pin: ATX_POWER_PIN, duration_ms: 5000 }));
    assert_eq!(set_atx_power_action("reset"), Ok(AtxPress { pin: ATX_RESET_PIN, duration_ms: 200 }));
    assert_eq!(set_atx_power_action("other"), Err(AtxError::InvalidAction("other".to_string())));
    assert_eq!(press_atx_power_button(7), AtxPress { pin: ATX_POWER_PIN, duration_ms: 7 });
    assert_eq!(press_atx_reset_button(9), AtxPress { pin: ATX_RESET_PIN, duration_ms: 9 });
}

#[test]
fn dc_gpio_from_environment() {
    assert_eq!(dc_power_gpio(Some("42")), 42);
    assert_eq!(dc_power_gpio(Some("x")), 0);
    assert_eq!(dc_power_gpio(None), 0);
    assert!(is_supported_supply_type("Mains\n"));
    assert!(is_supported_supply_type("UPS"));
    assert!(!is_supported_supply_type("Wireless"));
}

#[test]
fn dc_power_and_restore() {
    let mut d = DcControl::new();
    assert_eq!(d.get_dc_restore_state(), -1);
    assert!(d.set_dc_power_state(true, 0).is_empty());
    assert_eq!(d.power_state_applied(true, true), Ok(()));
    assert!(d.power_is_on(0, Ok(false)));
    assert!(!d.power_is_on(5, Ok(false)));
    assert!(!d.power_is_on(5, Err(GpioError::UnexpectedValue)));
    let ops = d.set_dc_power_state(false, 5);
    assert_eq!(ops, vec![GpioOp::EnsureExported(5), GpioOp::Settle(100), GpioOp::Direction(5, true), GpioOp::Write(5, false)]);
    assert_eq!(d.power_state_applied(false, false), Err(DcError::LineFailed));
    assert!(d.is_on);
    assert_eq!(d.set_dc_restore_state(3, 5), Err(DcError::InvalidRestoreState(3)));
    assert_eq!(d.restore_state_applied(3, true), Err(DcError::InvalidRestoreState(3)));
    assert_eq!(d.get_dc_restore_state(), -1);
    assert_eq!(d.set_dc_restore_state(1, 5), Ok(vec![GpioOp::Write(6, true)]));
    assert_eq!(d.restore_state_applied(1, false), Err(DcError::LineFailed));
    assert_eq!(d.get_dc_restore_state(), -1);
    assert_eq!(d.restore_state_applied(1, true), Ok(()));
    assert_eq!(d.get_dc_restore_state(), 1);
    assert_eq!(d.set_dc_restore_state(2, 5), Ok(vec![]));
    assert_eq!(d.restore_state_applied(2, true), Ok(()));
    assert_eq!(d.get_dc_restore_state(), 2);
    assert_eq!(mount_dc_control(5).len(), 3);
    assert!(mount_dc_control(0).is_empty());
    assert_eq!(unmount_dc_control(5), vec![GpioOp::Unexport(5)]);
}

#[test]
fn extension_switches() {
    let s = set_active_extension("atx-power", "atx-power");
    assert!(!s.save && s.unmount.is_none() && s.mount.is_none());
    let s = set_active_extension("atx-power", "dc-power");
    assert!(s.save);
    assert_eq!(s.unmount, Some(PowerExtension::Atx));
    assert_eq!(s.mount, Some(PowerExtension::Dc));
    assert_eq!(s.saved_id.as_deref(), Some("dc-power"));
    let s = set_active_extension("dc-power", "");
    assert_eq!(s.saved_id, None);
    assert!(!s.unknown);
    let s = set_active_extension("", "fan");
    assert!(s.unknown);
    assert_eq!(s.saved_id.as_deref(), Some("fan"));
}
