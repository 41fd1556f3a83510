//! The command line: encoder and rate-control choices, the option groups,
//! and the checks on values.
use vstd::prelude::*;
use crate::text::{chars_of, owned, parse_signed, parse_signed_exec, parse_unsigned, parse_unsigned_exec};

verus! {

/// The video encoder.
#[derive(Debug, Clone, Copy, PartialEq, Eq, Structural)]
pub enum VideoEncoder {
    H264,
    H265,
}

impl Default for VideoEncoder {
    fn default() -> (r: Self)
        ensures
            r == VideoEncoder::H264,
    {
        VideoEncoder::H264
    }
}

impl VideoEncoder {
    /// The GStreamer encoder element.
    pub fn gst_element_name(self) -> (r: &'static str)
        ensures
            r@ == (match self {
                VideoEncoder::H264 => "mpph264enc"@,
                VideoEncoder::H265 => "mpph265enc"@,
            }),
    {
        match self {
            VideoEncoder::H264 => "mpph264enc",
            VideoEncoder::H265 => "mpph265enc",
        }
    }

    /// The GStreamer parser element.
    pub fn parser_element_name(self) -> (r: &'static str)
        ensures
            r@ == (match self {
                VideoEncoder::H264 => "h264parse"@,
                VideoEncoder::H265 => "h265parse"@,
            }),
    {
        match self {
            VideoEncoder::H264 => "h264parse",
            VideoEncoder::H265 => "h265parse",
        }
    }

    /// The codec's name.
    pub fn codec_name(self) -> (r: &'static str)
        ensures
            r@ == (match self {
                VideoEncoder::H264 => "H.264/AVC"@,
                VideoEncoder::H265 => "H.265/HEVC"@,
            }),
    {
        match self {
            VideoEncoder::H264 => "H.264/AVC",
            VideoEncoder::H265 => "H.265/HEVC",
        }
    }
}

/// The encoder's rate control.
#[derive(Debug, Clone, Copy, PartialEq, Eq, Structural)]
pub enum RateControlMode {
    Vbr,
    Cbr,
    Avbr,
}

impl Default for RateControlMode {
    fn default() -> (r: Self)
        ensures
            r == RateControlMode::Vbr,
    {
        RateControlMode::Vbr
    }
}

impl RateControlMode {
    /// The mode's name for GStreamer.
    pub fn as_gst_str(self) -> (r: &'static str)
        ensures
            r@ == (match self {
                RateControlMode::Vbr => "vbr"@,
                RateControlMode::Cbr => "cbr"@,
                RateControlMode::Avbr => "avbr"@,
            }),
    {
        match self {
            RateControlMode::Vbr => "vbr",
            RateControlMode::Cbr => "cbr",
            RateControlMode::Avbr => "avbr",
        }
    }
}

/// The video options.
pub struct VideoArgs {
    pub video_device: String,
    pub video_encoder: VideoEncoder,
    pub video_bitrate: u32,
    pub video_max_bitrate: u32,
    pub video_rc_mode: RateControlMode,
    pub video_gop: Option<i32>,
    pub video_level: String,
    pub video_profile: Option<String>,
    pub video_fps: u32,
}

/// The audio options.
pub struct AudioArgs {
    pub audio_device: String,
    pub audio_sample_rate: u32,
    pub audio_channels: u32,
    pub audio_bitrate: i32,
}

/// The network options.
pub struct NetworkArgs {
    pub http_addr: String,
    pub https_addr: String,
    pub mdns_hostname: String,
    pub mdns_disable: bool,
    pub cloud_disable: bool,
}

/// The logging options.
pub struct LoggingArgs {
    pub log_level: String,
    pub log_json: bool,
    pub log_no_color: bool,
    pub log_file: Option<String>,
}

/// Why an option value was refused.
#[derive(Debug, PartialEq, Eq)]
pub enum ArgError {
    /// The text is not a number of the option's type.
    NotANumber(String),
    /// The audio channel count is not 1 or 2.
    ChannelsOutOfRange(u32),
    /// The audio bitrate is outside 4000..=650000.
    BitrateOutOfRange(i32),
    /// The maximum video bitrate is below the target.
    MaxBitrateBelowTarget { max: u32, target: u32 },
    /// A GOP size of 0.
    ZeroGop,
}

/// The audio channel count an option text gives: a `u32` of 1 or 2.
pub fn audio_channels_in_range(s: &str) -> (r: Result<u32, ArgError>)
    ensures
        match parse_unsigned(s@, u32::MAX as nat) {
            None => r matches Err(ArgError::NotANumber(t)) && t@ == s@,
            Some(v) => if 1 <= v <= 2 {
                r == Ok::<u32, ArgError>(v as u32)
            } else {
                r == Err::<u32, ArgError>(ArgError::ChannelsOutOfRange(v as u32))
            },
        },
{
    let cs = chars_of(s);
    match parse_unsigned_exec(cs.as_slice(), 0xffff_ffff) {
        None => Err(ArgError::NotANumber(owned(s))),
        Some(v) => {
            let v32 = v as u32;
            if 1 <= v32 && v32 <= 2 {
                Ok(v32)
            } else {
                Err(ArgError::ChannelsOutOfRange(v32))
            }
        },
    }
}

/// The audio bitrate an option text gives: an `i32` from 4000 to 650000.
pub fn audio_bitrate_in_range(s: &str) -> (r: Result<i32, ArgError>)
    ensures
        match parse_signed(s@, i32::MIN as int, i32::MAX as int) {
            None => r matches Err(ArgError::NotANumber(t)) && t@ == s@,
            Some(v) => if 4000 <= v <= 650000 {
                r == Ok::<i32, ArgError>(v as i32)
            } else {
                r == Err::<i32, ArgError>(ArgError::BitrateOutOfRange(v as i32))
            },
        },
{
    let cs = chars_of(s);
    match parse_signed_exec(cs.as_slice(), -2147483648, 2147483647) {
        None => Err(ArgError::NotANumber(owned(s))),
        Some(v) => {
            let v32 = v as i32;
            if 4000 <= v32 && v32 <= 650000 {
                Ok(v32)
            } else {
                Err(ArgError::BitrateOutOfRange(v32))
            }
        },
    }
}

/// Checks the video options: the maximum bitrate may not be below the
/// target, and a GOP size, when given, may not be 0 (in that order).
pub fn validate_video_args(v: &VideoArgs) -> (r: Result<(), ArgError>)
    ensures
        v.video_max_bitrate < v.video_bitrate ==> r == Err::<(), ArgError>(
            ArgError::MaxBitrateBelowTarget { max: v.video_max_bitrate, target: v.video_bitrate },
        ),
        v.video_max_bitrate >= v.video_bitrate && v.video_gop == Some(0i32) ==> r == Err::<(), ArgError>(
            ArgError::ZeroGop,
        ),
        v.video_max_bitrate >= v.video_bitrate && v.video_gop != Some(0i32) ==> r is Ok,
{
    if v.video_max_bitrate < v.video_bitrate {
        return Err(ArgError::MaxBitrateBelowTarget { max: v.video_max_bitrate, target: v.video_bitrate });
    }
    match v.video_gop {
        Some(g) => if g == 0 {
            return Err(ArgError::ZeroGop);
        },
        None => {},
    }
    Ok(())
}

/// How mDNS is shown in the summary: `disabled`, or the host name under
/// `.local`.
pub fn mdns_summary(n: &NetworkArgs) -> (r: String)
    ensures
        r@ == (if n.mdns_disable {
            "disabled"@
        } else {
            n.mdns_hostname@ + ".local"@
        }),
{
    if n.mdns_disable {
        owned("disabled")
    } else {
        let mut s = owned(n.mdns_hostname.as_str());
        s.append(".local");
        s
    }
}

} // verus!
