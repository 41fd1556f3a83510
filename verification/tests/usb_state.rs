use rustkvm::usb::{
    get_current_usb_state, select_udcs, should_unbind, udc_state_text, usb_serial,
    usb_serial_from, UsbManager, UsbPoller,
};

#[test]
fn udc_state_text_trims_or_reports_unknown() {
    assert_eq!(udc_state_text(Some("configured\n")), "configured");
    assert_eq!(udc_state_text(Some("  not attached  ")), "not attached");
    assert_eq!(udc_state_text(None), "unknown");
}

#[test]
fn usb_manager_starts_unknown_with_state_path() {
    let m = UsbManager::new("fc000000.usb".to_string());
    assert_eq!(m.udc_state_path, "/sys/class/udc/fc000000.usb/state");
    assert_eq!(m.get_usb_state(), "unknown");
    assert_eq!(m.get_udc_name(), "fc000000.usb");
    assert_eq!(get_current_usb_state(Some(&m)), "unknown");
    assert_eq!(get_current_usb_state(None), "unknown");
}

#[test]
fn poller_reports_only_changes() {
    let mut p = UsbPoller::new();
    assert_eq!(p.poll(false, Some("configured")), None);
    assert_eq!(p.poll(true, Some("configured\n")), Some("configured".to_string()));
    assert_eq!(p.poll(true, Some("configured")), None);
    assert_eq!(p.poll(true, None), Some("unknown".to_string()));
    assert_eq!(p.poll(true, Some("not attached")), Some("not attached".to_string()));
}

#[test]
fn select_udcs_prefers_platform_directories() {
    let platform = vec![
        ("fc000000.usb".to_string(), true),
        ("driver".to_string(), true),
        ("x.usb".to_string(), false),
    ];
    let class = vec!["other.usb".to_string()];
    assert_eq!(select_udcs(&platform, Some(&class)), vec!["fc000000.usb".to_string()]);
    let empty: Vec<(String, bool)> = vec![];
    assert_eq!(select_udcs(&empty, Some(&class)), vec!["other.usb".to_string()]);
    assert!(select_udcs(&empty, None).is_empty());
}

#[test]
fn should_unbind_only_other_gadgets_on_our_udc() {
    assert!(should_unbind("g1", "rustkvm", Some("fc000000.usb\n"), "fc000000.usb"));
    assert!(!should_unbind("rustkvm", "rustkvm", Some("fc000000.usb"), "fc000000.usb"));
    assert!(!should_unbind("g1", "rustkvm", Some(""), "fc000000.usb"));
    assert!(!should_unbind("g1", "rustkvm", None, "fc000000.usb"));
}

#[test]
fn serial_takes_hex_digits_upper_cased() {
    assert_eq!(usb_serial_from(Some("ab:cd-12zz"), "FALLBACK"), "RUSTKVM-ABCD12");
    assert_eq!(
        usb_serial_from(Some("0123456789abcdef0123"), "X"),
        "RUSTKVM-0123456789ABCDEF"
    );
    assert_eq!(usb_serial_from(None, "0123456789ABCDEFXYZ"), "RUSTKVM-0123456789ABCDEF");
    assert_eq!(usb_serial_from(Some("zz"), "ABC"), "RUSTKVM-ABC");
}

#[test]
fn serial_without_hex_digits_is_random_hex() {
    let a = usb_serial(None);
    assert_eq!(a.len(), 24);
    assert!(a.starts_with("RUSTKVM-"));
    assert!(a[8..].chars().all(|c| c.is_ascii_digit() || ('A'..='F').contains(&c)));
    let b = usb_serial(Some("xyz-!"));
    assert_eq!(b.len(), 24);
    assert_ne!(a, b);
    assert_eq!(usb_serial(Some("beef")), "RUSTKVM-BEEF");
}
