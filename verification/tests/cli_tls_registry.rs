use rustkvm::api::registry::{
    method_kind, method_response, parse_error_response, unwrap_single_params, AsyncHandler,
    JsonRpcError, JsonRpcResponse, NoParamsHandler, RpcKind, TypedHandler,
};
use rustkvm::cli::{
    audio_bitrate_in_range, audio_channels_in_range, mdns_summary, validate_video_args,
    ArgError, NetworkArgs, RateControlMode, VideoArgs, VideoEncoder,
};
use rustkvm::tls::{apply_tls_state, get_tls_state, subject_alt_names, TlsError, TlsState};
use rustkvm::version::VersionInfo;

fn video(bitrate: u32, max: u32, gop: Option<i32>) -> VideoArgs {
    VideoArgs {
        video_device: "/dev/video0".to_string(),
        video_encoder: VideoEncoder::default(),
        video_bitrate: bitrate,
        video_max_bitrate: max,
        video_rc_mode: RateControlMode::default(),
        video_gop: gop,
        video_level: "4.1".to_string(),
        video_profile: None,
        video_fps: 30,
    }
}

#[test]
fn encoder_names() {
    assert_eq!(VideoEncoder::H264.gst_element_name(), "mpph264enc");
    assert_eq!(VideoEncoder::H265.parser_element_name(), "h265parse");
    assert_eq!(VideoEncoder::H265.codec_name(), "H.265/HEVC");
    assert_eq!(RateControlMode::Avbr.as_gst_str(), "avbr");
    assert_eq!(RateControlMode::default(), RateControlMode::Vbr);
}

#[test]
fn option_value_checks() {
    assert_eq!(audio_channels_in_range("2"), Ok(2));
    assert_eq!(audio_channels_in_range("3"), Err(ArgError::ChannelsOutOfRange(3)));
    assert_eq!(audio_channels_in_range("two"), Err(ArgError::NotANumber("two".to_string())));
    assert_eq!(audio_bitrate_in_range("128000"), Ok(128000));
    assert_eq!(audio_bitrate_in_range("-1"), Err(ArgError::BitrateOutOfRange(-1)));
    assert_eq!(audio_bitrate_in_range("99999999999"), Err(ArgError::NotANumber("99999999999".to_string())));
}

#[test]
fn video_args_checks() {
    assert_eq!(validate_video_args(&video(4000, 8000, None)), Ok(()));
    assert_eq!(
        validate_video_args(&video(4000, 3000, Some(0))),
        Err(ArgError::MaxBitrateBelowTarget { max: 3000, target: 4000 })
    );
    assert_eq!(validate_video_args(&video(4000, 4000, Some(0))), Err(ArgError::ZeroGop));
    assert_eq!(validate_video_args(&video(4000, 4000, Some(60))), Ok(()));
}

#[test]
fn mdns_summaries() {
    let mut n = NetworkArgs {
        http_addr: "0.0.0.0:80".to_string(),
        https_addr: "0.0.0.0:443".to_string(),
        mdns_hostname: "rustkvm".to_string(),
        mdns_disable: false,
        cloud_disable: false,
    };
    assert_eq!(mdns_summary(&n), "rustkvm.local");
    n.mdns_disable = true;
    assert_eq!(mdns_summary(&n), "disabled");
}

#[test]
fn tls_states() {
    assert_eq!(get_tls_state("custom").mode, "custom");
    assert_eq!(get_tls_state("").mode, "self-signed");
    assert!(get_tls_state("custom").certificate.is_none());
    let d = TlsState::default();
    assert!(d.mode.is_empty());
    assert_eq!(apply_tls_state("disabled", None, None), Err(TlsError::DisabledNotSupported));
    assert_eq!(apply_tls_state("weird", None, None), Err(TlsError::InvalidMode("weird".to_string())));
    assert_eq!(apply_tls_state("custom", Some("cert"), Some("")), Err(TlsError::MissingCertificate));
    assert_eq!(apply_tls_state("custom", Some("cert"), Some("key")), Ok("custom"));
    assert_eq!(apply_tls_state("self-signed", None, None), Ok("self-signed"));
    assert_eq!(subject_alt_names(Some("10.0.0.2")), vec!["localhost", "127.0.0.1", "10.0.0.2"]);
    assert_eq!(subject_alt_names(None), vec!["localhost", "127.0.0.1"]);
}

#[test]
fn version_info() {
    let v = VersionInfo::from_build("1.0.0", Some("abc123"), None, None, Some("1.80"), "linux", "aarch64");
    assert_eq!(v.version, "1.0.0");
    assert_eq!(v.revision, "abc123");
    assert_eq!(v.branch, "unknown");
    assert_eq!(v.build_date, "unknown");
    assert_eq!(v.platform, "linux/aarch64");
}

#[test]
fn methods_are_registered_by_kind() {
    assert_eq!(method_kind("ping"), Some(RpcKind::NoParams));
    assert_eq!(method_kind("reboot"), Some(RpcKind::Typed));
    assert_eq!(method_kind("noSuchMethod"), None);
}

#[test]
fn json_rpc_responses() {
    let p: JsonRpcResponse<u32, u32> = parse_error_response();
    assert_eq!(p.jsonrpc, "2.0");
    assert_eq!(p.error, Some(JsonRpcError::ParseError));
    assert_eq!(p.id, None);
    let nf: JsonRpcResponse<u32, u32> = method_response(Some(7), false, None);
    assert_eq!(nf.error, Some(JsonRpcError::MethodNotFound));
    assert_eq!(nf.id, Some(7));
    let ok: JsonRpcResponse<u32, u32> = method_response(Some(1), true, Some(Ok(5)));
    assert_eq!(ok.result, Some(5));
    assert_eq!(ok.error, None);
    let err: JsonRpcResponse<u32, u32> = method_response(None, true, Some(Err("boom".to_string())));
    assert_eq!(err.error, Some(JsonRpcError::InternalError(Some("boom".to_string()))));
    assert!(unwrap_single_params(true, 1, true));
    assert!(!unwrap_single_params(true, 2, true));
    assert!(!unwrap_single_params(false, 1, true));
}

#[test]
fn handlers_keep_their_functions() {
    let t: TypedHandler<u8, u8, fn(u8) -> u8> = TypedHandler::new(|x| x + 1);
    assert_eq!((t.func)(1), 2);
    let n: NoParamsHandler<u8, fn() -> u8> = NoParamsHandler::new(|| 3);
    assert_eq!((n.func)(), 3);
    let a = AsyncHandler::new(|| 4u8);
    assert_eq!((a.func)(), 4);
}
