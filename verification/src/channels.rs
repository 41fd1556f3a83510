//! WebRTC data channels and signaling: which handler a channel goes to by
//! its label, how an upload channel reports progress, and what a message on
//! the browser's signaling socket asks for.
use vstd::prelude::*;
use crate::text::{chars_of, owned, same_text, starts_with, starts_with_chars};

verus! {

/// The label prefix of upload channels.
pub const UPLOAD_PREFIX: &'static str = "upload_";

/// The time between two progress reports of an upload, in ms.
pub const PROGRESS_INTERVAL_MS: u64 = 200;

/// Where a data channel is handed.
#[derive(Debug, Clone, Copy, PartialEq, Eq, Structural)]
pub enum ChannelRoute {
    Rpc,
    Disk,
    Terminal,
    Serial,
    CdcAcm,
    /// The HID channel; `true` for the reliable one.
    HidRpc(bool),
    Upload,
    Unknown,
}

/// The route of a label, given the upload prefix.
pub open spec fn route_of(label: Seq<char>, upload_prefix: Seq<char>) -> ChannelRoute {
    if label == "rpc"@ {
        ChannelRoute::Rpc
    } else if label == "disk"@ {
        ChannelRoute::Disk
    } else if label == "terminal"@ {
        ChannelRoute::Terminal
    } else if label == "serial"@ {
        ChannelRoute::Serial
    } else if label == "cdcacm"@ {
        ChannelRoute::CdcAcm
    } else if label == "hidrpc"@ {
        ChannelRoute::HidRpc(true)
    } else if label == "hidrpc-unreliable-ordered"@ || label == "hidrpc-unreliable-nonordered"@ {
        ChannelRoute::HidRpc(false)
    } else if starts_with(label, upload_prefix) {
        ChannelRoute::Upload
    } else {
        ChannelRoute::Unknown
    }
}

/// What routes data channels: the label prefix of uploads.
pub struct DataChannelManager {
    pub upload_prefix: String,
}

impl DataChannelManager {
    /// The manager, with uploads under `upload_`.
    pub fn new() -> (r: Self)
        ensures
            r.upload_prefix@ == UPLOAD_PREFIX@,
    {
        DataChannelManager { upload_prefix: owned(UPLOAD_PREFIX) }
    }

    /// The route of a channel by its label.
    pub fn route_data_channel(&self, label: &str) -> (r: ChannelRoute)
        ensures
            r == route_of(label@, self.upload_prefix@),
    {
        if same_text(label, "rpc") {
            ChannelRoute::Rpc
        } else if same_text(label, "disk") {
            ChannelRoute::Disk
        } else if same_text(label, "terminal") {
            ChannelRoute::Terminal
        } else if same_text(label, "serial") {
            ChannelRoute::Serial
        } else if same_text(label, "cdcacm") {
            ChannelRoute::CdcAcm
        } else if same_text(label, "hidrpc") {
            ChannelRoute::HidRpc(true)
        } else if same_text(label, "hidrpc-unreliable-ordered") || same_text(label, "hidrpc-unreliable-nonordered") {
            ChannelRoute::HidRpc(false)
        } else {
            let l = chars_of(label);
            let p = chars_of(self.upload_prefix.as_str());
            if starts_with_chars(l.as_slice(), p.as_slice()) {
                ChannelRoute::Upload
            } else {
                ChannelRoute::Unknown
            }
        }
    }
}

/// Whether a label names an upload channel.
pub fn is_upload_label(label: &str) -> (r: bool)
    ensures
        r == starts_with(label@, UPLOAD_PREFIX@),
{
    let l = chars_of(label);
    let p = chars_of(UPLOAD_PREFIX);
    starts_with_chars(l.as_slice(), p.as_slice())
}

/// What a chunk of an upload leads to.
#[derive(Debug, Clone, Copy, PartialEq, Eq, Structural)]
pub enum UploadAction {
    /// Nothing is sent.
    Nothing,
    /// The progress `(size, already)` is sent.
    Progress(i64, i64),
    /// The final progress is sent and the channel closed.
    Finish(i64, i64),
}

/// The progress of an upload channel: when progress was last sent (ms).
pub struct UploadTracker {
    pub last_progress_ms: u64,
}

impl UploadTracker {
    /// A tracker for a channel opened at `now_ms`.
    pub fn new(now_ms: u64) -> (r: Self)
        ensures
            r.last_progress_ms == now_ms,
    {
        UploadTracker { last_progress_ms: now_ms }
    }

    /// One chunk received at `now_ms`: when it could not be stored nothing
    /// happens; otherwise a report is due once 200 ms have passed since the
    /// last one (that time is then reset; a clock reading before the last
    /// report counts as no time passed). With the progress known, a
    /// finished upload (`already >= size`) sends its final progress and
    /// closes; an unfinished one sends its progress when a report is due.
    pub fn on_chunk(&mut self, now_ms: u64, stored: bool, progress: Option<(i64, i64)>) -> (r: UploadAction)
        ensures
            !stored ==> r == UploadAction::Nothing && final(self).last_progress_ms == old(self).last_progress_ms,
            stored ==> {
                let due = now_ms >= old(self).last_progress_ms && now_ms - old(self).last_progress_ms >= 200;
                &&& final(self).last_progress_ms == (if due {
                    now_ms
                } else {
                    old(self).last_progress_ms
                })
                &&& r == (match progress {
                    Some((size, already)) => if already >= size {
                        UploadAction::Finish(size, already)
                    } else if due {
                        UploadAction::Progress(size, already)
                    } else {
                        UploadAction::Nothing
                    },
                    None => UploadAction::Nothing,
                })
            },
    {
        if !stored {
            return UploadAction::Nothing;
        }
        let due = now_ms >= self.last_progress_ms && now_ms - self.last_progress_ms >= PROGRESS_INTERVAL_MS;
        if due {
            self.last_progress_ms = now_ms;
        }
        match progress {
            Some((size, already)) => {
                if already >= size {
                    UploadAction::Finish(size, already)
                } else if due {
                    UploadAction::Progress(size, already)
                } else {
                    UploadAction::Nothing
                }
            },
            None => UploadAction::Nothing,
        }
    }
}

/// Whether an upload whose channel closed was complete.
pub fn upload_complete_on_close(progress: Option<(i64, i64)>) -> (r: Option<bool>)
    ensures
        r == (match progress {
            Some((size, already)) => Some(already >= size),
            None => None,
        }),
{
    match progress {
        Some((size, already)) => Some(already >= size),
        None => None,
    }
}

/// What a text message on the browser's signaling socket asks for.
#[derive(Debug, PartialEq, Eq)]
pub enum SignalCommand {
    /// The bare text `ping`: answer `pong`.
    Pong,
    /// An offer with its data: set up a session and answer it.
    StartSession,
    /// An ICE candidate with its data, for the connection's session.
    AddIceCandidate,
    /// A message type that is not known.
    UnknownType(String),
    /// Nothing to do.
    Ignore,
}

/// What a signaling message asks for, as plain values.
pub enum SignalCommandView {
    Pong,
    StartSession,
    AddIceCandidate,
    UnknownType(Seq<char>),
    Ignore,
}

impl SignalCommand {
    pub open spec fn view(&self) -> SignalCommandView {
        match self {
            SignalCommand::Pong => SignalCommandView::Pong,
            SignalCommand::StartSession => SignalCommandView::StartSession,
            SignalCommand::AddIceCandidate => SignalCommandView::AddIceCandidate,
            SignalCommand::UnknownType(t) => SignalCommandView::UnknownType(t@),
            SignalCommand::Ignore => SignalCommandView::Ignore,
        }
    }
}

/// What a signaling message asks for, from its raw text and, when it is
/// JSON, its `type` string and whether it has `data`: the bare text `ping`
/// is answered at once; an offer or an ICE candidate needs its data; any
/// other type is unknown; a message without a type is ignored.
pub open spec fn signal_command_of(message: Seq<char>, msg_type: Option<Seq<char>>, has_data: bool) -> SignalCommandView {
    if message == "ping"@ {
        SignalCommandView::Pong
    } else {
        match msg_type {
            None => SignalCommandView::Ignore,
            Some(t) => if t == "offer"@ {
                if has_data {
                    SignalCommandView::StartSession
                } else {
                    SignalCommandView::Ignore
                }
            } else if t == "new-ice-candidate"@ {
                if has_data {
                    SignalCommandView::AddIceCandidate
                } else {
                    SignalCommandView::Ignore
                }
            } else {
                SignalCommandView::UnknownType(t)
            },
        }
    }
}

/// What a text message on the browser's signaling socket asks for.
pub fn signal_command(message: &str, msg_type: Option<&str>, has_data: bool) -> (r: SignalCommand)
    ensures
        r@ == signal_command_of(
            message@,
            match msg_type {
                Some(t) => Some(t@),
                None => None,
            },
            has_data,
        ),
{
    if same_text(message, "ping") {
        return SignalCommand::Pong;
    }
    match msg_type {
        None => SignalCommand::Ignore,
        Some(t) => if same_text(t, "offer") {
            if has_data {
                SignalCommand::StartSession
            } else {
                SignalCommand::Ignore
            }
        } else if same_text(t, "new-ice-candidate") {
            if has_data {
                SignalCommand::AddIceCandidate
            } else {
                SignalCommand::Ignore
            }
        } else {
            SignalCommand::UnknownType(owned(t))
        },
    }
}

} // verus!
