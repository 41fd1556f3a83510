use rustkvm::gadget::{
    attr_get, attr_set, build_path_from_components, configfs_mounted,
    create_default_config_map, is_gadget_config_item_enabled, write_gadget_item_config,
    DeviceConfig, GadgetConfig, GadgetError, GadgetOp, ReportDesc, UsbGadget,
};

fn s(v: &str) -> String {
    v.to_string()
}

fn udcs() -> Vec<String> {
    vec![s("fc000000.usb"), s("other.usb")]
}

#[test]
fn default_config_map_has_items_in_write_order() {
    let m = create_default_config_map();
    let keys: Vec<&str> = m.iter().map(|i| i.key.as_str()).collect();
    assert_eq!(
        keys,
        vec![
            "base",
            "base_info",
            "config_c1",
            "keyboard",
            "absolute_mouse",
            "relative_mouse",
            "mass_storage_base",
            "mass_storage_lun0"
        ]
    );
    let orders: Vec<u32> = m.iter().map(|i| i.order).collect();
    assert_eq!(orders, vec![0, 1, 2, 1000, 1001, 1002, 3000, 3001]);
    assert_eq!(attr_get(&m[0].attrs, "idVendor"), Some(s("0x1d6b")));
    assert_eq!(m[3].report_desc, Some(ReportDesc::Keyboard));
}

#[test]
fn attr_get_and_set() {
    let mut a = vec![(s("a"), s("1")), (s("b"), s("2"))];
    assert_eq!(attr_get(&a, "b"), Some(s("2")));
    assert_eq!(attr_get(&a, "c"), None);
    attr_set(&mut a, "b", "3");
    assert_eq!(attr_get(&a, "b"), Some(s("3")));
    assert_eq!(a.len(), 2);
    attr_set(&mut a, "c", "4");
    assert_eq!(a.len(), 3);
    assert_eq!(attr_get(&a, "c"), Some(s("4")));
}

#[test]
fn items_follow_the_enabled_devices() {
    let d = DeviceConfig { absolute_mouse: true, relative_mouse: false, keyboard: true, mass_storage: false };
    assert!(is_gadget_config_item_enabled(&d, "absolute_mouse"));
    assert!(!is_gadget_config_item_enabled(&d, "relative_mouse"));
    assert!(is_gadget_config_item_enabled(&d, "keyboard"));
    assert!(!is_gadget_config_item_enabled(&d, "mass_storage_base"));
    assert!(!is_gadget_config_item_enabled(&d, "mass_storage_lun0"));
    assert!(is_gadget_config_item_enabled(&d, "base"));
}

#[test]
fn paths_are_joined_with_slashes() {
    assert_eq!(build_path_from_components("/g", &vec![s("functions"), s("hid.usb0")]), "/g/functions/hid.usb0");
    assert_eq!(build_path_from_components("/g", &vec![]), "/g");
}

#[test]
fn keyboard_item_writes_hid_attributes_first_and_links() {
    let m = create_default_config_map();
    let ops = write_gadget_item_config("/g", "/g/configs/c.1", &m[3]);
    let dir = "/g/functions/hid.usb0";
    assert_eq!(ops.len(), 8);
    assert!(matches!(&ops[0], GadgetOp::RemoveEntry(p) if p == "/g/configs/c.1/hid.usb0"));
    assert!(matches!(&ops[1], GadgetOp::CreateDir(p) if p == dir));
    assert!(matches!(&ops[2], GadgetOp::WriteFile(p, v) if p == "/g/functions/hid.usb0/subclass" && v == "1"));
    assert!(matches!(&ops[3], GadgetOp::WriteFile(p, v) if p == "/g/functions/hid.usb0/protocol" && v == "1"));
    assert!(matches!(&ops[4], GadgetOp::WriteFile(p, v) if p == "/g/functions/hid.usb0/report_length" && v == "8"));
    assert!(matches!(&ops[5], GadgetOp::WriteReportDesc(p, ReportDesc::Keyboard) if p == "/g/functions/hid.usb0/report_desc"));
    assert!(matches!(&ops[6], GadgetOp::WriteFile(p, v) if p == "/g/functions/hid.usb0/no_out_endpoint" && v == "0"));
    assert!(matches!(&ops[7], GadgetOp::Symlink { target, link } if target == dir && link == "/g/configs/c.1/hid.usb0"));
}

#[test]
fn config_item_with_attributes_gets_its_own_directory() {
    let m = create_default_config_map();
    let ops = write_gadget_item_config("/g", "/g/configs/c.1", &m[1]);
    assert!(matches!(&ops[0], GadgetOp::CreateDir(p) if p == "/g/strings/0x409"));
    assert!(matches!(ops.last().unwrap(), GadgetOp::WriteFile(p, v) if p == "/g/configs/c.1/strings/0x409/configuration" && v == "Config 1: HID"));
}

#[test]
fn gadget_needs_a_controller() {
    let none: Vec<String> = vec![];
    let r = UsbGadget::new(s("rustkvm"), DeviceConfig::default(), GadgetConfig::default(), &none);
    assert!(matches!(r, Err(GadgetError::NoUdc)));
}

#[test]
fn gadget_paths_and_identity() {
    let mut cfg = GadgetConfig::default();
    cfg.serial_number = s("RUSTKVM-ABCD");
    let g = UsbGadget::new(s("rustkvm"), DeviceConfig::default(), cfg, &udcs()).unwrap();
    assert_eq!(g.get_udc_name(), "fc000000.usb");
    assert_eq!(g.kvm_gadget_path, "/sys/kernel/config/usb_gadget/rustkvm");
    assert_eq!(g.config_c1_path, "/sys/kernel/config/usb_gadget/rustkvm/configs/c.1");
    assert_eq!(attr_get(&g.config_map[1].attrs, "serialnumber"), Some(s("RUSTKVM-ABCD")));
    assert!(matches!(g.unbind_udc(), GadgetOp::WriteFile(p, v) if p == "/sys/kernel/config/usb_gadget/rustkvm/UDC" && v.is_empty()));
}

#[test]
fn configure_mounts_configfs_first() {
    let g = UsbGadget::new(s("rustkvm"), DeviceConfig::default(), GadgetConfig::default(), &udcs()).unwrap();
    let ops = g.configure_usb_gadget();
    assert!(matches!(ops[0], GadgetOp::MountConfigfs));
    assert!(ops.len() > 10);
    let init = g.init(&vec![]);
    assert!(matches!(init, Err(GadgetError::NoUdcAtInit)));
    assert!(g.init(&udcs()).is_ok());
}

#[test]
fn configfs_mount_is_found_in_mount_table() {
    let table = "proc /proc proc rw 0 0\nconfigfs /sys/kernel/config configfs rw,relatime 0 0\n";
    assert!(configfs_mounted(Some(table)));
    assert!(!configfs_mounted(Some("proc /proc proc rw 0 0\n")));
    assert!(!configfs_mounted(None));
}
