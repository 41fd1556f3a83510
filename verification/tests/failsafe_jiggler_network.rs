use rustkvm::failsafe::{
    check_failsafe_reason, crash_reason_exec, get_state, is_active, last_crash_path,
    notification, tail_offset, CrashLogRead, FailsafeState, FAILSAFE_DEFAULT_LAST_CRASH_PATH,
};
use rustkvm::jiggler::{
    get_jiggler_config, jiggle_offset, parse_cron_interval, should_jiggle, JigglerConfig,
};
use rustkvm::network::{chosen_hostname, get_network_state, network_changed, IfAddress, IfEntry};

#[test]
fn crash_reasons() {
    assert_eq!(crash_reason_exec("... VIDEO_MAX_RESTART_ATTEMPTS_REACHED ..."), "video");
    assert_eq!(crash_reason_exec("thread 'main' Panic in Video pipeline"), "video");
    assert_eq!(crash_reason_exec("received SIGSEGV"), "signal");
    assert_eq!(crash_reason_exec("SigBus"), "signal");
    assert_eq!(crash_reason_exec("out of memory"), "unknown");
}

#[test]
fn failsafe_check_order() {
    let log = CrashLogRead::Content("got SIGILL".to_string());
    let r = check_failsafe_reason(Some("1"), true, &log);
    let s = r.state.unwrap();
    assert_eq!(s.reason, "failsafe_env_set");
    assert!(!r.remove_marker && !r.remove_crash_log);
    let r = check_failsafe_reason(Some("0"), true, &log);
    assert_eq!(r.state.unwrap().reason, "failsafe_file_exists");
    assert!(r.remove_marker);
    let r = check_failsafe_reason(None, false, &log);
    let s = r.state.unwrap();
    assert_eq!(s.reason, "signal");
    assert_eq!(s.crash_log, "got SIGILL");
    assert!(r.remove_crash_log);
    for other in [CrashLogRead::NotFound, CrashLogRead::StatFailed, CrashLogRead::NotSymlink, CrashLogRead::ReadFailed] {
        let r = check_failsafe_reason(None, false, &other);
        assert!(r.state.is_none() && !r.remove_marker && !r.remove_crash_log);
    }
}

#[test]
fn failsafe_state_helpers() {
    assert_eq!(last_crash_path(None), FAILSAFE_DEFAULT_LAST_CRASH_PATH);
    assert_eq!(last_crash_path(Some("/tmp/x.log")), "/tmp/x.log");
    assert_eq!(tail_offset(100_000, 51_200), 48_800);
    assert_eq!(tail_offset(10, 51_200), 0);
    let st = Some(FailsafeState { active: true, reason: "video".to_string(), crash_log: "l".to_string() });
    assert!(is_active(&st));
    assert_eq!(notification(&st).unwrap().reason, "video");
    assert_eq!(get_state(&st).unwrap().crash_log, "l");
    assert!(notification(&None).is_none());
    let off = Some(FailsafeState::default());
    assert!(!is_active(&off));
    assert!(notification(&off).is_none());
}

#[test]
fn cron_intervals() {
    assert_eq!(parse_cron_interval("*/15 * * * * *"), 15);
    assert_eq!(parse_cron_interval("TZ=UTC */5 * * * * *"), 5);
    assert_eq!(parse_cron_interval("*/0 * * * * *"), 1);
    assert_eq!(parse_cron_interval("*/x * * * * *"), 60);
    assert_eq!(parse_cron_interval("0 * * * * *"), 60);
    assert_eq!(parse_cron_interval(""), 60);
}

#[test]
fn jiggle_decisions() {
    assert!(should_jiggle(true, Some(61_000_000_000), 60));
    assert!(!should_jiggle(true, Some(60_000_000_000), 60));
    assert!(!should_jiggle(false, Some(u128::MAX), 60));
    assert!(should_jiggle(true, None, 60));
    assert_eq!(jiggle_offset(0, 1), 1);
    assert_eq!(jiggle_offset(5, 2), -3);
    assert_eq!(jiggle_offset(4, 3), 2);
    let d = JigglerConfig::default();
    assert_eq!(d.schedule_cron_tab, "0 * * * * *");
    let c = get_jiggler_config(&d);
    assert_eq!(c.timezone.as_deref(), Some("UTC"));
    assert_eq!(c.inactivity_limit_seconds, 60);
}

fn entry(name: &str, lo: bool, addr: IfAddress) -> IfEntry {
    IfEntry { name: name.to_string(), is_loopback: lo, addr }
}

#[test]
fn network_state_from_interface_entries() {
    let es = vec![
        entry("lo", true, IfAddress::V4("127.0.0.1".to_string())),
        entry("eth0", false, IfAddress::V4("10.0.0.2".to_string())),
        entry("eth0", false, IfAddress::V6("fe80::1".to_string(), 0xfe80)),
        entry("eth0", false, IfAddress::V6("2001:db8::1".to_string(), 0x2001)),
        entry("eth0", false, IfAddress::V4("10.0.0.3".to_string())),
        entry("wlan0", false, IfAddress::V4("192.168.1.2".to_string())),
    ];
    let s = get_network_state(Some(&es));
    assert_eq!(s.interface_name, "eth0");
    assert!(s.up && s.online && s.ipv4_ready && s.ipv6_ready);
    assert_eq!(s.ipv4_address, "10.0.0.2");
    assert_eq!(s.ipv4_addresses, vec!["10.0.0.2".to_string(), "10.0.0.3".to_string()]);
    assert_eq!(s.ipv6_link_local, "fe80::1");
    assert_eq!(s.ipv6_address, "2001:db8::1");
    let none = get_network_state(None);
    assert!(!none.up && !none.online);
    assert!(network_changed(None, &s));
    assert!(!network_changed(Some(&s), &s));
    assert!(network_changed(Some(&none), &s));
}

#[test]
fn hostname_choice() {
    assert_eq!(chosen_hostname(Some("  kvm  "), "rustkvm"), "kvm");
    assert_eq!(chosen_hostname(Some("   "), "rustkvm"), "rustkvm");
    assert_eq!(chosen_hostname(None, "rustkvm"), "rustkvm");
}
