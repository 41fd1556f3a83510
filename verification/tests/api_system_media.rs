use rustkvm::api::media::{
    check_mount_url, get_backlight_settings, get_display_state, get_mass_storage_mode,
    get_virtual_media_state, parse_vm_mode, set_backlight_settings, set_display_rotation,
    set_mass_storage_mode, set_video_codec_preference, BacklightSettings,
    DisplayRotationParams, MassStorageModeParams, MediaError, UrlCheck, VideoCodecParams,
    VideoSleep, VideoSleepModeParams, VirtualMediaMode, VirtualMediaSource, VirtualMediaState,
};
use rustkvm::api::system::{
    atx_extension_change, emit_test_log, get_failsafe_mode, get_local_version,
    get_serial_settings, get_timezones, get_update_status, get_update_status_channel,
    is_update_pending, parse_log_level, ping, reboot_args, set_serial_settings, LogLevel,
    LogLevelParams, LogLevelSetting, RebootParams, SerialSettings, SystemError,
};
use rustkvm::failsafe::FailsafeState;
use rustkvm::hid::KeyboardState;

fn serial(b: &str, d: &str, s: &str, p: &str) -> SerialSettings {
    SerialSettings {
        baud_rate: b.to_string(),
        data_bits: d.to_string(),
        stop_bits: s.to_string(),
        parity: p.to_string(),
    }
}

#[test]
fn simple_system_answers() {
    assert_eq!(ping(), "pong");
    assert_eq!(reboot_args(&RebootParams { force: true }), vec!["-f".to_string()]);
    assert!(reboot_args(&RebootParams { force: false }).is_empty());
    let v = get_local_version("1.2.3", Some("  2024.1\n"));
    assert_eq!(v.app_version, "1.2.3");
    assert_eq!(v.system_version.as_deref(), Some("2024.1"));
    assert_eq!(get_local_version("1", None).system_version, None);
    assert_eq!(get_timezones()[0], "UTC");
    assert!(!get_update_status("1.0").update_available);
    assert!(!is_update_pending());
    assert_eq!(get_update_status_channel().channel, "stable");
    let st = Some(FailsafeState { active: true, reason: "video".to_string(), crash_log: String::new() });
    let f = get_failsafe_mode(&st);
    assert!(f.active);
    assert_eq!(f.reason, "video");
    assert!(!get_failsafe_mode(&None).active);
}

#[test]
fn log_levels() {
    assert_eq!(parse_log_level("WARN"), Some(LogLevel::Warn));
    assert_eq!(parse_log_level("warn"), None);
    let mut s = LogLevelSetting::new();
    assert_eq!(s.get_default_log_level(), "INFO");
    assert_eq!(s.set_default_log_level(&LogLevelParams { level: "DEBUG".to_string() }), Ok(LogLevel::Debug));
    assert_eq!(s.get_default_log_level(), "DEBUG");
    assert_eq!(
        s.set_default_log_level(&LogLevelParams { level: "LOUD".to_string() }),
        Err(SystemError::InvalidLogLevel("LOUD".to_string()))
    );
    assert_eq!(s.get_default_log_level(), "DEBUG");
    assert_eq!(emit_test_log(&LogLevelParams { level: "ERROR".to_string() }), Ok(LogLevel::Error));
}

#[test]
fn serial_settings_are_checked_in_order() {
    assert_eq!(set_serial_settings(&serial("115200", "8", "1", "none")), Ok(()));
    assert_eq!(set_serial_settings(&serial("9600", "5", "1.5", "space")), Ok(()));
    assert_eq!(
        set_serial_settings(&serial("fast", "9", "3", "x")),
        Err(SystemError::InvalidBaudRate("fast".to_string()))
    );
    assert_eq!(
        set_serial_settings(&serial("9600", "x", "1", "none")),
        Err(SystemError::InvalidDataBits("x".to_string()))
    );
    assert_eq!(set_serial_settings(&serial("9600", "9", "1", "none")), Err(SystemError::DataBitsOutOfRange));
    assert_eq!(
        set_serial_settings(&serial("9600", "8", "3", "none")),
        Err(SystemError::InvalidStopBits("3".to_string()))
    );
    assert_eq!(
        set_serial_settings(&serial("9600", "8", "2", "NONE")),
        Err(SystemError::InvalidParity("NONE".to_string()))
    );
    let g = get_serial_settings();
    assert_eq!((g.baud_rate.as_str(), g.parity.as_str()), ("115200", "none"));
}

#[test]
fn atx_extension_changes() {
    assert_eq!(atx_extension_change("atx-power", "dc-power"), (true, false));
    assert_eq!(atx_extension_change("atx-power", "atx-power"), (false, true));
    assert_eq!(atx_extension_change("", "atx-power"), (false, true));
}

#[test]
fn display_and_backlight() {
    assert_eq!(set_display_rotation(&DisplayRotationParams { rotation: "90".to_string() }), Ok(()));
    assert_eq!(
        set_display_rotation(&DisplayRotationParams { rotation: "45".to_string() }),
        Err(MediaError::InvalidRotation("45".to_string()))
    );
    let b = set_backlight_settings(&BacklightSettings { max_brightness: 64, dim_after: 120, off_after: 1800 }).unwrap();
    assert_eq!((b.max_brightness, b.dim_after_sec, b.off_after_sec), (64, 120, 1800));
    let back = get_backlight_settings(&b);
    assert_eq!((back.max_brightness, back.dim_after, back.off_after), (64, 120, 1800));
    assert!(matches!(
        set_backlight_settings(&BacklightSettings { max_brightness: 256, dim_after: -1, off_after: -1 }),
        Err(MediaError::BrightnessOutOfRange)
    ));
    assert!(matches!(
        set_backlight_settings(&BacklightSettings { max_brightness: 1, dim_after: -1, off_after: -1 }),
        Err(MediaError::NegativeDimAfter)
    ));
    assert!(matches!(
        set_backlight_settings(&BacklightSettings { max_brightness: 1, dim_after: 0, off_after: -1 }),
        Err(MediaError::NegativeOffAfter)
    ));
    let d = get_display_state("10.0.0.2", "configured", "connected", KeyboardState::default());
    assert!(d.usb_connected);
    assert!(!get_display_state("", "not attached", "", KeyboardState::default()).usb_connected);
}

#[test]
fn codecs_and_sleep() {
    assert_eq!(set_video_codec_preference(&VideoCodecParams { codec: "h265".to_string() }), Ok(()));
    assert_eq!(
        set_video_codec_preference(&VideoCodecParams { codec: "vp9".to_string() }),
        Err(MediaError::InvalidCodec("vp9".to_string()))
    );
    let mut s = VideoSleep::new();
    let r = s.get_video_sleep_mode();
    assert!(r.supported && !r.enabled);
    assert_eq!(r.duration, 60);
    s.set_video_sleep_mode(&VideoSleepModeParams { duration: -5 });
    let r = s.get_video_sleep_mode();
    assert!(!r.enabled);
    assert_eq!(r.duration, -1);
    s.set_video_sleep_mode(&VideoSleepModeParams { duration: 30 });
    let r = s.get_video_sleep_mode();
    assert!(r.supported && r.enabled);
    assert_eq!(r.duration, 30);
    s.set_video_sleep_mode(&VideoSleepModeParams { duration: 0 });
    assert!(s.get_video_sleep_mode().enabled);
}

#[test]
fn virtual_media_modes() {
    assert_eq!(parse_vm_mode("cdrom"), Ok(VirtualMediaMode::Cdrom));
    assert_eq!(parse_vm_mode("Disk"), Ok(VirtualMediaMode::Disk));
    assert_eq!(parse_vm_mode("tape"), Err(MediaError::InvalidMode("tape".to_string())));
    assert_eq!(set_mass_storage_mode(&MassStorageModeParams { mode: "CDROM".to_string() }), Ok(true));
    assert_eq!(set_mass_storage_mode(&MassStorageModeParams { mode: "file".to_string() }), Ok(false));
    assert!(set_mass_storage_mode(&MassStorageModeParams { mode: "x".to_string() }).is_err());
    assert_eq!(get_mass_storage_mode(true), "cdrom");
    assert_eq!(get_mass_storage_mode(false), "file");
    let st = VirtualMediaState {
        source: VirtualMediaSource::WebRtc,
        mode: VirtualMediaMode::Cdrom,
        filename: Some("a.iso".to_string()),
        url: None,
        size: 10,
    };
    let r = get_virtual_media_state(Some(st)).unwrap();
    assert_eq!((r.source.as_str(), r.mode.as_str(), r.size), ("WebRTC", "CDROM", 10));
    assert!(get_virtual_media_state(None).is_none());
    let c = check_mount_url(UrlCheck { usable: false, reason: Some("404".to_string()), size: 0 });
    assert!(!c.usable);
    assert_eq!(c.reason.as_deref(), Some("404"));
}
