//! The MQTT link over time: what each broker event leads to, the status
//! reported, the periodic updates, the update entity's state and the
//! virtual media choices.
use vstd::prelude::*;
use crate::discovery::{opt_text, texts};
use crate::mqtt::{MqttConfig, MqttStatusResponse, MqttTestResult, MQTT_PASSWORD_MASK};
use crate::text::{owned, same_text};

verus! {

/// An event of the broker connection.
pub enum BrokerEvent {
    /// The broker accepted the connection.
    ConnAck,
    /// A message arrived on a topic.
    Publish { topic: String, payload: String },
    /// The broker closed the connection.
    Disconnect,
    /// Any other packet.
    Other,
    /// The connection failed, with this message.
    Error(String),
}

/// What the link does after an event.
pub enum LinkAction {
    /// Announce the device: online status, discovery when enabled, command
    /// subscriptions and every state.
    Connected,
    /// Handle a command.
    Command { topic: String, payload: String },
    /// Nothing more.
    Nothing,
    /// Wait 5 s before polling again.
    Backoff,
}

/// The link's state: whether it is connected, and the last connection
/// error (empty when none).
pub struct MqttLink {
    pub connected: bool,
    pub last_error: String,
}

impl MqttLink {
    /// A link not connected yet.
    pub fn new() -> (r: Self)
        ensures
            !r.connected,
            r.last_error@.len() == 0,
    {
        MqttLink { connected: false, last_error: String::new() }
    }

    /// One event: an accepted connection marks the link connected and
    /// clears the error; a message is a command; a closed connection marks
    /// it disconnected; an error marks it disconnected, keeps the message
    /// and backs off; anything else changes nothing.
    pub fn on_event(&mut self, ev: BrokerEvent) -> (r: LinkAction)
        ensures
            match ev {
                BrokerEvent::ConnAck => final(self).connected && final(self).last_error@.len() == 0 && r is Connected,
                BrokerEvent::Publish { topic, payload } => final(self).connected == old(self).connected
                    && final(self).last_error == old(self).last_error && (r matches LinkAction::Command {
                    topic: t,
                    payload: p,
                } && t == topic && p == payload),
                BrokerEvent::Disconnect => !final(self).connected && final(self).last_error == old(
                    self,
                ).last_error && r is Nothing,
                BrokerEvent::Other => final(self).connected == old(self).connected && final(self).last_error
                    == old(self).last_error && r is Nothing,
                BrokerEvent::Error(m) => !final(self).connected && final(self).last_error@ == m@ && r is Backoff,
            },
    {
        match ev {
            BrokerEvent::ConnAck => {
                self.connected = true;
                self.last_error = String::new();
                LinkAction::Connected
            },
            BrokerEvent::Publish { topic, payload } => LinkAction::Command { topic, payload },
            BrokerEvent::Disconnect => {
                self.connected = false;
                LinkAction::Nothing
            },
            BrokerEvent::Other => LinkAction::Nothing,
            BrokerEvent::Error(m) => {
                self.connected = false;
                self.last_error = m;
                LinkAction::Backoff
            },
        }
    }

    /// Closing the link: the error is cleared and it is no longer
    /// connected (the offline status is published before it disconnects).
    pub fn close(&mut self)
        ensures
            !final(self).connected,
            final(self).last_error@.len() == 0,
    {
        self.last_error = String::new();
        self.connected = false;
    }

    /// The status reported: connected or not, and the last error when
    /// there is one.
    pub fn status(&self) -> (r: MqttStatusResponse)
        ensures
            r.connected == self.connected,
            opt_text(r.error) == (if self.last_error@.len() == 0 {
                None
            } else {
                Some(self.last_error@)
            }),
    {
        MqttStatusResponse {
            connected: self.connected,
            error: if self.last_error.as_str().unicode_len() == 0 {
                None
            } else {
                Some(owned(self.last_error.as_str()))
            },
        }
    }
}

/// The status reported without a link: not connected, no error.
pub fn status_without_link() -> (r: MqttStatusResponse)
    ensures
        !r.connected,
        r.error is None,
{
    MqttStatusResponse { connected: false, error: None }
}

/// What a periodic update publishes.
#[derive(Debug, Clone, Copy, PartialEq, Eq, Structural)]
pub enum PeriodicAction {
    /// Publish the online status.
    Status,
    /// Publish the ATX state.
    AtxState,
    /// Publish the DC state.
    DcState,
    /// Publish every other state.
    ExtendedStates,
}

/// One periodic update: nothing when not connected; otherwise the online
/// status, the state of the active power extension, and the other states.
pub fn periodic_update(connected: bool, extension: &str) -> (r: Vec<PeriodicAction>)
    ensures
        !connected ==> r@.len() == 0,
        connected ==> r@ == (if extension@ == "atx-power"@ {
            seq![PeriodicAction::Status, PeriodicAction::AtxState, PeriodicAction::ExtendedStates]
        } else if extension@ == "dc-power"@ {
            seq![PeriodicAction::Status, PeriodicAction::DcState, PeriodicAction::ExtendedStates]
        } else {
            seq![PeriodicAction::Status, PeriodicAction::ExtendedStates]
        }),
{
    let mut v: Vec<PeriodicAction> = Vec::new();
    if !connected {
        return v;
    }
    v.push(PeriodicAction::Status);
    if same_text(extension, "atx-power") {
        v.push(PeriodicAction::AtxState);
    } else if same_text(extension, "dc-power") {
        v.push(PeriodicAction::DcState);
    }
    v.push(PeriodicAction::ExtendedStates);
    v
}

/// What a test connection uses: the broker, the port (1883 for 0), the
/// user and the password (the stored one when the masked one is sent back).
pub struct TestParams {
    pub broker: String,
    pub port: u16,
    pub username: String,
    pub password: String,
    pub use_tls: bool,
    pub tls_insecure: bool,
}

/// A test connection: refused without a broker; otherwise the parameters
/// it uses.
pub fn test_connection_params(settings: &MqttConfig, current_password: &str) -> (r: Result<TestParams, MqttTestResult>)
    ensures
        settings.broker@.len() == 0 ==> (r matches Err(t) && !t.success && (t.error matches Some(e) && e@
            == "broker address is required"@)),
        settings.broker@.len() > 0 ==> (r matches Ok(p) && p.broker@ == settings.broker@ && p.port == (if settings.port
            == 0 {
            1883
        } else {
            settings.port
        }) && p.username@ == settings.username@ && p.password@ == crate::mqtt::kept_password(settings.password@, current_password@) && p.use_tls == settings.use_tls && p.tls_insecure == settings.tls_insecure),
{
    if settings.broker.as_str().unicode_len() == 0 {
        return Err(MqttTestResult { success: false, error: Some(owned("broker address is required")) });
    }
    let password = if same_text(settings.password.as_str(), MQTT_PASSWORD_MASK) {
        owned(current_password)
    } else {
        owned(settings.password.as_str())
    };
    Ok(TestParams {
        broker: owned(settings.broker.as_str()),
        port: if settings.port == 0 {
            1883
        } else {
            settings.port
        },
        username: owned(settings.username.as_str()),
        password,
        use_tls: settings.use_tls,
        tls_insecure: settings.tls_insecure,
    })
}

/// The result of a test connection that was made: success, or a timeout.
pub fn test_connection_result(timed_out: bool) -> (r: MqttTestResult)
    ensures
        r.success == !timed_out,
        timed_out ==> (r.error matches Some(e) && e@ == "connection timed out"@),
        !timed_out ==> r.error is None,
{
    if timed_out {
        MqttTestResult { success: false, error: Some(owned("connection timed out")) }
    } else {
        MqttTestResult { success: true, error: None }
    }
}

/// The update entity's state, without the progress figure: installed and
/// latest version, whether an update runs, and whether the progress is
/// given.
pub struct UpdatePlan {
    pub installed_version: String,
    pub latest_version: String,
    pub in_progress: bool,
    pub with_progress: bool,
}

/// What an update check found.
pub struct UpdateStatus {
    pub installed_version: String,
    pub latest_version: String,
    pub update_available: bool,
}

/// The cache of the update entity: whether an update was asked for, when
/// the last check was made (ms), its result, and the latest version known.
pub struct UpdatePublisher {
    pub update_requested: bool,
    pub last_check_ms: Option<u64>,
    pub last_payload: Option<(String, String)>,
    pub last_known_latest: String,
}

/// The time between two update checks, in ms.
pub const UPDATE_CHECK_INTERVAL_MS: u64 = 600_000;

impl UpdatePublisher {
    /// Nothing asked, nothing checked.
    pub fn new() -> (r: Self)
        ensures
            !r.update_requested,
            r.last_check_ms is None,
            r.last_payload is None,
            r.last_known_latest@.len() == 0,
    {
        UpdatePublisher { update_requested: false, last_check_ms: None, last_payload: None, last_known_latest: String::new() }
    }

    /// The state published at `now_ms`: a request that the updater no longer
    /// runs is dropped; while an update runs, the latest known version (the
    /// installed one when none is known) is shown in progress, with its
    /// progress, and the check time is forgotten; otherwise a check less
    /// than ten minutes old is reused (with the installed version of now),
    /// and a new one is made from `status` (an available update also
    /// becomes the latest known version).
    pub fn publish_update_state(&mut self, now_ms: u64, ota_updating: bool, installed: &str, status: Option<UpdateStatus>) -> (r: UpdatePlan)
        ensures
            final(self).update_requested == (old(self).update_requested && ota_updating),
            (ota_updating || (old(self).update_requested && ota_updating)) ==> {
                &&& r.in_progress && r.with_progress
                &&& r.installed_version@ == installed@
                &&& r.latest_version@ == (if old(self).last_known_latest@.len() > 0 {
                    old(self).last_known_latest@
                } else {
                    installed@
                })
                &&& final(self).last_check_ms is None
            },
            !ota_updating ==> {
                let fresh = match old(self).last_check_ms {
                    Some(t) => now_ms >= t && now_ms - t < UPDATE_CHECK_INTERVAL_MS,
                    None => false,
                };
                &&& !r.in_progress && !r.with_progress
                &&& (fresh && old(self).last_payload is Some) ==> r.installed_version@ == installed@
                    && r.latest_version@ == old(self).last_payload.unwrap().1@ && final(self).last_check_ms
                    == old(self).last_check_ms
                &&& !(fresh && old(self).last_payload is Some) ==> final(self).last_check_ms == Some(now_ms)
                    && match status {
                    Some(st) => r.installed_version@ == st.installed_version@ && r.latest_version@ == (if st.update_available {
                        st.latest_version@
                    } else {
                        installed@
                    }),
                    None => r.installed_version@ == installed@ && r.latest_version@ == installed@,
                }
            },
    {
        if self.update_requested && !ota_updating {
            self.update_requested = false;
        }
        let updating = ota_updating || self.update_requested;
        if updating {
            let latest = if self.last_known_latest.as_str().unicode_len() > 0 {
                owned(self.last_known_latest.as_str())
            } else {
                owned(installed)
            };
            self.last_check_ms = None;
            return UpdatePlan { installed_version: owned(installed), latest_version: latest, in_progress: true, with_progress: true };
        }
        let fresh = match self.last_check_ms {
            Some(t) => now_ms >= t && now_ms - t < UPDATE_CHECK_INTERVAL_MS,
            None => false,
        };
        if fresh {
            match &self.last_payload {
                Some(p) => {
                    return UpdatePlan {
                        installed_version: owned(installed),
                        latest_version: owned(p.1.as_str()),
                        in_progress: false,
                        with_progress: false,
                    };
                },
                None => {},
            }
        }
        let mut inst = owned(installed);
        let mut latest = owned(installed);
        match status {
            Some(st) => {
                inst = st.installed_version;
                if st.update_available {
                    latest = owned(st.latest_version.as_str());
                    self.last_known_latest = st.latest_version;
                }
            },
            None => {},
        }
        self.last_payload = Some((owned(inst.as_str()), owned(latest.as_str())));
        self.last_check_ms = Some(now_ms);
        UpdatePlan { installed_version: inst, latest_version: latest, in_progress: false, with_progress: false }
    }
}

/// The virtual media mounted, as published: its name and where it comes
/// from (`-- no media --` and `none` when nothing is mounted).
pub fn vm_mount_info(state: Option<&crate::api::media::VirtualMediaState>) -> (r: (String, String))
    ensures
        match state {
            None => r.0@ == "-- no media --"@ && r.1@ == "none"@,
            Some(s) => r.0@ == (match s.filename {
                Some(f) => f@,
                None => match s.url {
                    Some(u) => u@,
                    None => Seq::empty(),
                },
            }) && r.1@ == vm_source_name(s.source, s.mode),
        },
{
    match state {
        None => (owned("-- no media --"), owned("none")),
        Some(s) => {
            let name = match &s.filename {
                Some(f) => owned(f.as_str()),
                None => match &s.url {
                    Some(u) => owned(u.as_str()),
                    None => String::new(),
                },
            };
            let src = match (s.source, s.mode) {
                (_, crate::api::media::VirtualMediaMode::Cdrom) => "cdrom",
                (crate::api::media::VirtualMediaSource::Storage, crate::api::media::VirtualMediaMode::Disk) => "disk",
                (crate::api::media::VirtualMediaSource::Http, _) => "http",
                (crate::api::media::VirtualMediaSource::WebRtc, _) => "webrtc",
            };
            (name, owned(src))
        },
    }
}

/// The source name published for a mounted image: `cdrom` for any CD-ROM,
/// then `disk` from storage, `http` from a URL, `webrtc` from the browser.
pub open spec fn vm_source_name(source: crate::api::media::VirtualMediaSource, mode: crate::api::media::VirtualMediaMode) -> Seq<char> {
    match (source, mode) {
        (_, crate::api::media::VirtualMediaMode::Cdrom) => "cdrom"@,
        (crate::api::media::VirtualMediaSource::Storage, crate::api::media::VirtualMediaMode::Disk) => "disk"@,
        (crate::api::media::VirtualMediaSource::Http, _) => "http"@,
        (crate::api::media::VirtualMediaSource::WebRtc, _) => "webrtc"@,
    }
}

/// The choices of the virtual media select: the images found, plus the
/// mounted one when it comes from a URL.
pub open spec fn vm_choices(images: Seq<Seq<char>>, source: Seq<char>, mounted: Seq<char>) -> Seq<Seq<char>> {
    if source == "url"@ {
        images.push(mounted)
    } else {
        images
    }
}

/// The choices of the select after a state update, with the choices last
/// announced: when they changed they are kept and returned (to be
/// announced again); otherwise nothing.
pub fn vm_options_update(last: &mut Vec<String>, images: Vec<String>, source: &str, mounted: &str) -> (r: Option<Vec<String>>)
    ensures
        vm_choices(texts(images@), source@, mounted@) == texts(old(last)@) ==> r is None && texts(final(last)@)
            == texts(old(last)@),
        vm_choices(texts(images@), source@, mounted@) != texts(old(last)@) ==> (r matches Some(v) && texts(v@)
            == vm_choices(texts(images@), source@, mounted@)) && texts(final(last)@) == vm_choices(
            texts(images@),
            source@,
            mounted@,
        ),
{
    let mut opts = images;
    if same_text(source, "url") {
        let ghost before = texts(opts@);
        opts.push(owned(mounted));
        assert(texts(opts@) =~= before.push(mounted@));
    }
    if same_strings(last, &opts) {
        None
    } else {
        *last = crate::discovery::copy_strings(&opts);
        Some(opts)
    }
}

fn same_strings(a: &Vec<String>, b: &Vec<String>) -> (r: bool)
    ensures
        r == (texts(a@) == texts(b@)),
{
    if a.len() != b.len() {
        assert(texts(a@).len() != texts(b@).len());
        return false;
    }
    let mut i: usize = 0;
    while i < a.len()
        invariant
            a@.len() == b@.len(),
            i <= a@.len(),
            forall|j: int| 0 <= j < i ==> a@[j]@ == b@[j]@,
        decreases a@.len() - i,
    {
        if !same_text(a[i].as_str(), b[i].as_str()) {
            assert(texts(a@)[i as int] != texts(b@)[i as int]);
            return false;
        }
        i = i + 1;
    }
    assert(texts(a@) =~= texts(b@));
    true
}

} // verus!
