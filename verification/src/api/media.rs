//! Display, video and virtual media methods.
use vstd::prelude::*;
use crate::hid::KeyboardState;
use crate::text::{ascii_lower_chars, ascii_lower_seq, ascii_upper_chars, ascii_upper_seq, chars_of, owned, same_text};

verus! {

/// A display rotation.
pub struct DisplayRotationParams {
    pub rotation: String,
}

/// The display rotation.
pub struct DisplayRotationResponse {
    pub rotation: String,
}

/// Why a media request was refused.
#[derive(Debug, PartialEq, Eq)]
pub enum MediaError {
    InvalidRotation(String),
    BrightnessOutOfRange,
    NegativeDimAfter,
    NegativeOffAfter,
    InvalidCodec(String),
    InvalidMode(String),
}

/// The rotations accepted: 0, 90, 180 and 270.
pub open spec fn rotation_ok(r: Seq<char>) -> bool {
    r == "0"@ || r == "90"@ || r == "180"@ || r == "270"@
}

/// Checks a rotation: accepted exactly when it is one of the four.
pub fn set_display_rotation(params: &DisplayRotationParams) -> (r: Result<(), MediaError>)
    ensures
        rotation_ok(params.rotation@) ==> r is Ok,
        !rotation_ok(params.rotation@) ==> (r matches Err(MediaError::InvalidRotation(s)) && s@ == params.rotation@),
{
    let v = params.rotation.as_str();
    if same_text(v, "0") || same_text(v, "90") || same_text(v, "180") || same_text(v, "270") {
        Ok(())
    } else {
        Err(MediaError::InvalidRotation(owned(v)))
    }
}

/// Backlight settings: brightness and the seconds before dimming and
/// switching off.
pub struct BacklightSettings {
    pub max_brightness: i32,
    pub dim_after: i32,
    pub off_after: i32,
}

/// Backlight settings, as reported.
pub struct BacklightSettingsResponse {
    pub max_brightness: i32,
    pub dim_after: i32,
    pub off_after: i32,
}

/// What accepted backlight settings store: brightness as a byte, the two
/// delays as unsigned seconds.
pub struct BacklightStored {
    pub max_brightness: u8,
    pub dim_after_sec: u32,
    pub off_after_sec: u32,
}

/// Checks backlight settings: brightness from 0 to 255 and delays not
/// negative, checked in that order; accepted ones are stored as they are.
pub fn set_backlight_settings(s: &BacklightSettings) -> (r: Result<BacklightStored, MediaError>)
    ensures
        !(0 <= s.max_brightness <= 255) ==> r == Err::<BacklightStored, MediaError>(MediaError::BrightnessOutOfRange),
        0 <= s.max_brightness <= 255 && s.dim_after < 0 ==> r == Err::<BacklightStored, MediaError>(
            MediaError::NegativeDimAfter,
        ),
        0 <= s.max_brightness <= 255 && s.dim_after >= 0 && s.off_after < 0 ==> r == Err::<
            BacklightStored,
            MediaError,
        >(MediaError::NegativeOffAfter),
        0 <= s.max_brightness <= 255 && s.dim_after >= 0 && s.off_after >= 0 ==> (r matches Ok(b)
            && b.max_brightness == s.max_brightness && b.dim_after_sec == s.dim_after && b.off_after_sec
            == s.off_after),
{
    if !(0 <= s.max_brightness && s.max_brightness <= 255) {
        return Err(MediaError::BrightnessOutOfRange);
    }
    if s.dim_after < 0 {
        return Err(MediaError::NegativeDimAfter);
    }
    if s.off_after < 0 {
        return Err(MediaError::NegativeOffAfter);
    }
    Ok(BacklightStored {
        max_brightness: s.max_brightness as u8,
        dim_after_sec: s.dim_after as u32,
        off_after_sec: s.off_after as u32,
    })
}

/// The backlight settings stored, as reported.
pub fn get_backlight_settings(b: &BacklightStored) -> (r: BacklightSettingsResponse)
    ensures
        r.max_brightness == b.max_brightness,
        r.dim_after == b.dim_after_sec as i32,
        r.off_after == b.off_after_sec as i32,
{
    BacklightSettingsResponse {
        max_brightness: b.max_brightness as i32,
        dim_after: b.dim_after_sec as i32,
        off_after: b.off_after_sec as i32,
    }
}

/// What the device's own display shows.
pub struct DisplayState {
    pub ip: String,
    pub usb_connected: bool,
    pub cloud_state: String,
    pub keyboard_led: KeyboardState,
}

/// The display state: the address, whether the USB link is `configured`,
/// the cloud state and the keyboard LEDs.
pub fn get_display_state(ip: &str, usb_state: &str, cloud_state: &str, keyboard_led: KeyboardState) -> (r: DisplayState)
    ensures
        r.ip@ == ip@,
        r.usb_connected == (usb_state@ == "configured"@),
        r.cloud_state@ == cloud_state@,
        r.keyboard_led == keyboard_led,
{
    DisplayState {
        ip: owned(ip),
        usb_connected: same_text(usb_state, "configured"),
        cloud_state: owned(cloud_state),
        keyboard_led,
    }
}

/// A video codec preference.
pub struct VideoCodecParams {
    pub codec: String,
}

/// The codec preferences accepted: auto, h265 and h264.
pub open spec fn codec_ok(c: Seq<char>) -> bool {
    c == "auto"@ || c == "h265"@ || c == "h264"@
}

/// Checks a codec preference.
pub fn set_video_codec_preference(params: &VideoCodecParams) -> (r: Result<(), MediaError>)
    ensures
        codec_ok(params.codec@) ==> r is Ok,
        !codec_ok(params.codec@) ==> (r matches Err(MediaError::InvalidCodec(s)) && s@ == params.codec@),
{
    let c = params.codec.as_str();
    if same_text(c, "auto") || same_text(c, "h265") || same_text(c, "h264") {
        Ok(())
    } else {
        Err(MediaError::InvalidCodec(owned(c)))
    }
}

/// The video sleep mode.
pub struct VideoSleepModeResponse {
    pub supported: bool,
    pub enabled: bool,
    pub duration: i32,
}

/// A video sleep delay (negative to switch sleeping off).
pub struct VideoSleepModeParams {
    pub duration: i32,
}

/// The video sleep setting: a delay (-1 when off) and whether sleeping is
/// switched on.
#[derive(Debug, Clone, Copy, PartialEq, Eq, Structural)]
pub struct VideoSleep {
    pub duration: i32,
    pub enabled: bool,
}

impl VideoSleep {
    /// The setting at start: a delay of 60 seconds, sleeping not enabled.
    pub fn new() -> (r: Self)
        ensures
            r.duration == 60,
            !r.enabled,
    {
        VideoSleep { duration: 60, enabled: false }
    }

    /// Sets the delay: any negative value switches sleeping off (-1); a
    /// delay of zero or more switches it on.
    pub fn set_video_sleep_mode(&mut self, params: &VideoSleepModeParams)
        ensures
            final(self).duration == (if params.duration < 0 {
                -1
            } else {
                params.duration as int
            }),
            final(self).enabled == (params.duration >= 0),
    {
        let duration = if params.duration < 0 {
            -1
        } else {
            params.duration
        };
        self.duration = duration;
        self.enabled = duration >= 0;
    }

    /// The sleep mode reported: always supported, with the current delay
    /// and whether sleeping is on.
    pub fn get_video_sleep_mode(&self) -> (r: VideoSleepModeResponse)
        ensures
            r.supported,
            r.enabled == self.enabled,
            r.duration == self.duration,
    {
        VideoSleepModeResponse { supported: true, enabled: self.enabled, duration: self.duration }
    }
}

/// Where the mounted image comes from.
#[derive(Debug, Clone, Copy, PartialEq, Eq, Structural)]
pub enum VirtualMediaSource {
    WebRtc,
    Http,
    Storage,
}

/// How the image is presented.
#[derive(Debug, Clone, Copy, PartialEq, Eq, Structural)]
pub enum VirtualMediaMode {
    Cdrom,
    Disk,
}

/// The mounted image.
pub struct VirtualMediaState {
    pub source: VirtualMediaSource,
    pub mode: VirtualMediaMode,
    pub filename: Option<String>,
    pub url: Option<String>,
    pub size: i64,
}

/// The mounted image, as reported.
pub struct VirtualMediaStateResponse {
    pub source: String,
    pub mode: String,
    pub filename: Option<String>,
    pub url: Option<String>,
    pub size: i64,
}

/// The name of a source.
pub open spec fn source_name(s: VirtualMediaSource) -> Seq<char> {
    match s {
        VirtualMediaSource::WebRtc => "WebRTC"@,
        VirtualMediaSource::Http => "HTTP"@,
        VirtualMediaSource::Storage => "Storage"@,
    }
}

/// The name of a mode.
pub open spec fn mode_name(m: VirtualMediaMode) -> Seq<char> {
    match m {
        VirtualMediaMode::Cdrom => "CDROM"@,
        VirtualMediaMode::Disk => "Disk"@,
    }
}

/// The mounted image as reported: source and mode by name, the rest as it
/// is; nothing when no image is mounted.
pub fn get_virtual_media_state(s: Option<VirtualMediaState>) -> (r: Option<VirtualMediaStateResponse>)
    ensures
        match s {
            Some(st) => r matches Some(v) && v.source@ == source_name(st.source) && v.mode@ == mode_name(st.mode)
                && v.filename == st.filename && v.url == st.url && v.size == st.size,
            None => r is None,
        },
{
    match s {
        Some(st) => Some(
            VirtualMediaStateResponse {
                source: match st.source {
                    VirtualMediaSource::WebRtc => owned("WebRTC"),
                    VirtualMediaSource::Http => owned("HTTP"),
                    VirtualMediaSource::Storage => owned("Storage"),
                },
                mode: match st.mode {
                    VirtualMediaMode::Cdrom => owned("CDROM"),
                    VirtualMediaMode::Disk => owned("Disk"),
                },
                filename: st.filename,
                url: st.url,
                size: st.size,
            },
        ),
        None => None,
    }
}

/// The mode a name gives, read without regard to ASCII case.
pub open spec fn vm_mode_of(m: Seq<char>) -> Option<VirtualMediaMode> {
    let u = ascii_upper_seq(m);
    if u == "CDROM"@ {
        Some(VirtualMediaMode::Cdrom)
    } else if u == "DISK"@ {
        Some(VirtualMediaMode::Disk)
    } else {
        None
    }
}

/// The mode a name gives.
pub fn parse_vm_mode(mode: &str) -> (r: Result<VirtualMediaMode, MediaError>)
    ensures
        match vm_mode_of(mode@) {
            Some(m) => r == Ok::<VirtualMediaMode, MediaError>(m),
            None => r matches Err(MediaError::InvalidMode(s)) && s@ == mode@,
        },
{
    let cs = chars_of(mode);
    let u = ascii_upper_chars(cs.as_slice());
    let us = crate::text::string_of(u.as_slice());
    if same_text(us.as_str(), "CDROM") {
        Ok(VirtualMediaMode::Cdrom)
    } else if same_text(us.as_str(), "DISK") {
        Ok(VirtualMediaMode::Disk)
    } else {
        Err(MediaError::InvalidMode(owned(mode)))
    }
}

/// An image to mount from a URL.
pub struct MountHttpParams {
    pub url: String,
    pub mode: String,
}

/// An image to mount from the browser.
pub struct MountWebRtcParams {
    pub filename: String,
    pub size: i64,
    pub mode: String,
}

/// An image to mount from the device's storage.
pub struct MountStorageParams {
    pub filename: String,
    pub mode: String,
}

/// The storage space.
pub struct StorageSpaceResponse {
    pub bytes_used: i64,
    pub bytes_free: i64,
}

/// A stored image.
pub struct StorageFileInfo {
    pub filename: String,
    pub size: i64,
    pub created_at: String,
    pub total_bytes: i64,
}

/// The stored images.
pub struct StorageFilesResponse {
    pub files: Vec<StorageFileInfo>,
}

/// An upload to start.
pub struct StartUploadParams {
    pub filename: String,
    pub size: i64,
}

/// A started upload: what is already there and the channel to send on.
pub struct StartUploadResponse {
    pub already_uploaded_bytes: i64,
    pub data_channel: String,
}

/// A stored image to delete.
pub struct DeleteStorageFileParams {
    pub filename: String,
}

/// A built-in image to mount.
pub struct MountBuiltInImageParams {
    pub filename: String,
}

/// A mass-storage mode by name.
pub struct MassStorageModeParams {
    pub mode: String,
}

/// Whether a mass-storage mode name asks for a CD-ROM (read without regard
/// to ASCII case): `cdrom` yes, `file` no, anything else refused.
pub open spec fn mass_storage_cdrom(m: Seq<char>) -> Option<bool> {
    let l = ascii_lower_seq(m);
    if l == "cdrom"@ {
        Some(true)
    } else if l == "file"@ {
        Some(false)
    } else {
        None
    }
}

/// Whether a mass-storage mode name asks for a CD-ROM.
pub fn set_mass_storage_mode(params: &MassStorageModeParams) -> (r: Result<bool, MediaError>)
    ensures
        match mass_storage_cdrom(params.mode@) {
            Some(b) => r == Ok::<bool, MediaError>(b),
            None => r matches Err(MediaError::InvalidMode(s)) && s@ == params.mode@,
        },
{
    let cs = chars_of(params.mode.as_str());
    let l = ascii_lower_chars(cs.as_slice());
    let ls = crate::text::string_of(l.as_slice());
    if same_text(ls.as_str(), "cdrom") {
        Ok(true)
    } else if same_text(ls.as_str(), "file") {
        Ok(false)
    } else {
        Err(MediaError::InvalidMode(owned(params.mode.as_str())))
    }
}

/// The name of a mass-storage mode.
pub fn get_mass_storage_mode(cdrom: bool) -> (r: String)
    ensures
        r@ == (if cdrom {
            "cdrom"@
        } else {
            "file"@
        }),
{
    if cdrom {
        owned("cdrom")
    } else {
        owned("file")
    }
}

/// A URL to check.
pub struct CheckMountUrlParams {
    pub url: String,
}

/// Whether a URL can be mounted, why not, and the image's size.
pub struct VirtualMediaUrlInfo {
    pub usable: bool,
    pub reason: Option<String>,
    pub size: i64,
}

/// What the storage layer found of a URL.
pub struct UrlCheck {
    pub usable: bool,
    pub reason: Option<String>,
    pub size: i64,
}

/// The answer to a URL check: what the storage layer found, field for
/// field.
pub fn check_mount_url(found: UrlCheck) -> (r: VirtualMediaUrlInfo)
    ensures
        r.usable == found.usable,
        r.reason == found.reason,
        r.size == found.size,
{
    VirtualMediaUrlInfo { usable: found.usable, reason: found.reason, size: found.size }
}

/// A built-in image to mount, as the RPC names it.
pub struct RpcMountBuiltInImageParams {
    pub filename: String,
}

} // verus!
