//! The cloud connection: its state, what the connection loop does in each
//! state, and the rules of registration, deregistration and URL changes.
use vstd::prelude::*;
use crate::text::{owned, same_text};

verus! {

/// The state of the cloud connection.
#[derive(Debug, Clone, Copy, PartialEq, Eq, Structural)]
pub enum CloudConnectionState {
    NotConfigured,
    Disconnected,
    Connecting,
    Connected,
}

/// What is reported of the cloud: connected when a token and a URL are
/// set, and the two URLs.
pub struct CloudState {
    pub connected: bool,
    pub url: Option<String>,
    pub app_url: Option<String>,
}

/// The cloud manager: the connection's state.
pub struct CloudManager {
    pub state: CloudConnectionState,
}

impl CloudManager {
    /// A manager that is not configured yet.
    pub fn new() -> (r: Self)
        ensures
            r.state == CloudConnectionState::NotConfigured,
    {
        CloudManager { state: CloudConnectionState::NotConfigured }
    }

    /// The connection's state.
    pub fn get_state(&self) -> (r: CloudConnectionState)
        ensures
            r == self.state,
    {
        self.state
    }

    /// Sets the connection's state.
    pub fn set_state(&mut self, state: CloudConnectionState)
        ensures
            final(self).state == state,
    {
        self.state = state;
    }

    /// What the cloud reports for the configured token (whether one is
    /// set), API URL and app URL.
    pub fn get_cloud_state(&self, has_token: bool, cloud_url: &str, app_url: &str) -> (r: CloudState)
        ensures
            r.connected == (has_token && cloud_url@.len() > 0),
            r.url matches Some(u) && u@ == cloud_url@,
            r.app_url matches Some(a) && a@ == app_url@,
    {
        CloudState {
            connected: has_token && cloud_url.unicode_len() > 0,
            url: Some(owned(cloud_url)),
            app_url: Some(owned(app_url)),
        }
    }

    /// A change of the cloud URL: the connection drops to disconnected when
    /// the URL is another one.
    pub fn set_cloud_url(&mut self, current_url: &str, api_url: &str)
        ensures
            current_url@ != api_url@ ==> final(self).state == CloudConnectionState::Disconnected,
            current_url@ == api_url@ ==> final(self).state == old(self).state,
    {
        if !same_text(current_url, api_url) {
            self.state = CloudConnectionState::Disconnected;
        }
    }
}

/// What the connection loop does next.
#[derive(Debug, Clone, Copy, PartialEq, Eq, Structural)]
pub enum LoopAction {
    /// Wait this many seconds and look again.
    Wait(u64),
    /// Look again at once.
    Again,
    /// Connect to the cloud.
    Connect,
}

/// One turn of the connection loop: unconfigured, it waits 5 s until a token
/// and a URL are set, and then counts as disconnected; disconnected, it
/// starts connecting; connecting or connected, it waits 5 s.
pub fn connection_step(m: &mut CloudManager, configured: bool) -> (r: LoopAction)
    ensures
        match old(m).state {
            CloudConnectionState::NotConfigured => if configured {
                final(m).state == CloudConnectionState::Disconnected && r == LoopAction::Again
            } else {
                final(m).state == CloudConnectionState::NotConfigured && r == LoopAction::Wait(5)
            },
            CloudConnectionState::Disconnected => final(m).state == CloudConnectionState::Connecting && r
                == LoopAction::Connect,
            _ => final(m).state == old(m).state && r == LoopAction::Wait(5),
        },
{
    match m.state {
        CloudConnectionState::NotConfigured => {
            if configured {
                m.state = CloudConnectionState::Disconnected;
                LoopAction::Again
            } else {
                LoopAction::Wait(5)
            }
        },
        CloudConnectionState::Disconnected => {
            m.state = CloudConnectionState::Connecting;
            LoopAction::Connect
        },
        _ => LoopAction::Wait(5),
    }
}

/// How a connection attempt ended.
#[derive(Debug, Clone, Copy, PartialEq, Eq, Structural)]
pub enum ConnectOutcome {
    /// No token was available.
    NoToken,
    /// The session ended cleanly.
    Clean,
    /// The peer closed without a close notice.
    UnexpectedEof,
    /// The session failed.
    Failed,
}

/// The end of a connection attempt: the connection counts as disconnected
/// again; a clean end or a close by the peer is no failure, after which
/// the loop looks again at once; after a failure it waits 5 s.
pub fn after_connect(m: &mut CloudManager, outcome: ConnectOutcome) -> (r: LoopAction)
    ensures
        final(m).state == CloudConnectionState::Disconnected,
        r == (match outcome {
            ConnectOutcome::Clean | ConnectOutcome::UnexpectedEof => LoopAction::Again,
            _ => LoopAction::Wait(5),
        }),
{
    m.state = CloudConnectionState::Disconnected;
    match outcome {
        ConnectOutcome::Clean | ConnectOutcome::UnexpectedEof => LoopAction::Again,
        _ => LoopAction::Wait(5),
    }
}

/// Why a cloud request was refused.
#[derive(Debug, PartialEq, Eq)]
pub enum CloudError {
    /// No cloud URL is configured or given.
    UrlNotConfigured,
    /// No token or URL is set.
    NotRegistered,
    /// The cloud answered with this status.
    RequestFailed(u16),
}

/// The cloud API to register with: the configured URL, else the one in
/// the request; refused when both are empty.
pub fn registration_api(configured: &str, requested: &str) -> (r: Result<String, CloudError>)
    ensures
        configured@.len() > 0 ==> (r matches Ok(u) && u@ == configured@),
        configured@.len() == 0 && requested@.len() > 0 ==> (r matches Ok(u) && u@ == requested@),
        configured@.len() == 0 && requested@.len() == 0 ==> r == Err::<String, CloudError>(
            CloudError::UrlNotConfigured,
        ),
{
    if configured.unicode_len() > 0 {
        Ok(owned(configured))
    } else if requested.unicode_len() > 0 {
        Ok(owned(requested))
    } else {
        Err(CloudError::UrlNotConfigured)
    }
}

/// Whether deregistration may be asked for: a token and a URL are set.
pub fn deregistration_allowed(has_token: bool, cloud_url: &str) -> (r: Result<(), CloudError>)
    ensures
        (has_token && cloud_url@.len() > 0) ==> r is Ok,
        !(has_token && cloud_url@.len() > 0) ==> r == Err::<(), CloudError>(CloudError::NotRegistered),
{
    if has_token && cloud_url.unicode_len() > 0 {
        Ok(())
    } else {
        Err(CloudError::NotRegistered)
    }
}

/// The answer of the cloud to a deregistration: a success status, or 404
/// (already gone), clears the registration and leaves the connection
/// unconfigured; any other status is a failure that changes nothing.
pub fn deregistration_result(m: &mut CloudManager, status: u16) -> (r: Result<(), CloudError>)
    ensures
        (200 <= status <= 299 || status == 404) ==> r is Ok && final(m).state
            == CloudConnectionState::NotConfigured,
        !(200 <= status <= 299 || status == 404) ==> r == Err::<(), CloudError>(CloudError::RequestFailed(status))
            && final(m).state == old(m).state,
{
    if (200 <= status && status <= 299) || status == 404 {
        m.state = CloudConnectionState::NotConfigured;
        Ok(())
    } else {
        Err(CloudError::RequestFailed(status))
    }
}

/// The code of an error that the cloud reports.
#[derive(Debug, Clone, Copy, PartialEq, Eq, Structural)]
pub enum CloudErrorCode {
    /// The device's credentials were refused.
    AuthFailed,
    /// A session that the cloud named does not exist.
    SessionNotFound,
    /// Any other code, or none.
    Other,
}

/// What a text message from the cloud asks of the device.
#[derive(Debug, PartialEq, Eq)]
pub enum CloudCommand {
    /// Answer a `ping` with a `pong`.
    SendPong,
    /// Set up a WebRTC session from the request in the message's data.
    StartSession,
    /// Hand the message's data to the current session as an ICE candidate.
    AddIceCandidate,
    /// Close the session of this id and confirm it if it existed.
    CloseSession(String),
    /// A close request without a session id.
    MalformedClose,
    /// An error that the cloud reports.
    ReportError(CloudErrorCode),
    /// A message type that the device does not know.
    UnknownType(String),
    /// Nothing to do.
    Ignore,
}

/// What a message from the cloud asks, as plain values.
pub enum CloudCommandView {
    SendPong,
    StartSession,
    AddIceCandidate,
    CloseSession(Seq<char>),
    MalformedClose,
    ReportError(CloudErrorCode),
    UnknownType(Seq<char>),
    Ignore,
}

impl CloudCommand {
    pub open spec fn view(&self) -> CloudCommandView {
        match self {
            CloudCommand::SendPong => CloudCommandView::SendPong,
            CloudCommand::StartSession => CloudCommandView::StartSession,
            CloudCommand::AddIceCandidate => CloudCommandView::AddIceCandidate,
            CloudCommand::CloseSession(id) => CloudCommandView::CloseSession(id@),
            CloudCommand::MalformedClose => CloudCommandView::MalformedClose,
            CloudCommand::ReportError(c) => CloudCommandView::ReportError(*c),
            CloudCommand::UnknownType(t) => CloudCommandView::UnknownType(t@),
            CloudCommand::Ignore => CloudCommandView::Ignore,
        }
    }
}

/// The kind of a cloud error code: `auth_failed`, `session_not_found`, or
/// another (a missing code reads as `unknown`).
pub open spec fn error_code_kind(code: Option<Seq<char>>) -> CloudErrorCode {
    match code {
        Some(c) => if c == "auth_failed"@ {
            CloudErrorCode::AuthFailed
        } else if c == "session_not_found"@ {
            CloudErrorCode::SessionNotFound
        } else {
            CloudErrorCode::Other
        },
        None => CloudErrorCode::Other,
    }
}

/// What a cloud message asks, from its `type`, whether it has `data`, the
/// `data.session_id` and the `data.code` that it carries as strings.
pub open spec fn cloud_command_of(
    msg_type: Option<Seq<char>>,
    has_data: bool,
    session_id: Option<Seq<char>>,
    error_code: Option<Seq<char>>,
) -> CloudCommandView {
    match msg_type {
        None => CloudCommandView::Ignore,
        Some(t) => if t == "ping"@ {
            CloudCommandView::SendPong
        } else if t == "offer"@ || t == "session_request"@ {
            if has_data {
                CloudCommandView::StartSession
            } else {
                CloudCommandView::Ignore
            }
        } else if t == "new-ice-candidate"@ {
            if has_data {
                CloudCommandView::AddIceCandidate
            } else {
                CloudCommandView::Ignore
            }
        } else if t == "session_close"@ {
            match session_id {
                Some(id) => CloudCommandView::CloseSession(id),
                None => CloudCommandView::MalformedClose,
            }
        } else if t == "error"@ {
            if has_data {
                CloudCommandView::ReportError(error_code_kind(error_code))
            } else {
                CloudCommandView::Ignore
            }
        } else {
            CloudCommandView::UnknownType(t)
        },
    }
}

fn text_is(s: &str, lit: &str) -> (r: bool)
    ensures
        r == (s@ == lit@),
{
    same_text(s, lit)
}

/// The kind of the error code that the cloud sent.
pub fn cloud_error_code(code: Option<&str>) -> (r: CloudErrorCode)
    ensures
        r == error_code_kind(
            match code {
                Some(c) => Some(c@),
                None => None,
            },
        ),
{
    match code {
        Some(c) => if text_is(c, "auth_failed") {
            CloudErrorCode::AuthFailed
        } else if text_is(c, "session_not_found") {
            CloudErrorCode::SessionNotFound
        } else {
            CloudErrorCode::Other
        },
        None => CloudErrorCode::Other,
    }
}

/// What a text message from the cloud asks of the device, from its `type`,
/// whether it has `data`, and the `data.session_id` and `data.code` strings
/// it carries. A message without a type is ignored.
pub fn cloud_message_command(
    msg_type: Option<&str>,
    has_data: bool,
    session_id: Option<&str>,
    error_code: Option<&str>,
) -> (r: CloudCommand)
    ensures
        r@ == cloud_command_of(
            match msg_type {
                Some(t) => Some(t@),
                None => None,
            },
            has_data,
            match session_id {
                Some(i) => Some(i@),
                None => None,
            },
            match error_code {
                Some(c) => Some(c@),
                None => None,
            },
        ),
{
    match msg_type {
        None => CloudCommand::Ignore,
        Some(t) => if text_is(t, "ping") {
            CloudCommand::SendPong
        } else if text_is(t, "offer") || text_is(t, "session_request") {
            if has_data {
                CloudCommand::StartSession
            } else {
                CloudCommand::Ignore
            }
        } else if text_is(t, "new-ice-candidate") {
            if has_data {
                CloudCommand::AddIceCandidate
            } else {
                CloudCommand::Ignore
            }
        } else if text_is(t, "session_close") {
            match session_id {
                Some(id) => CloudCommand::CloseSession(owned(id)),
                None => CloudCommand::MalformedClose,
            }
        } else if text_is(t, "error") {
            if has_data {
                CloudCommand::ReportError(cloud_error_code(error_code))
            } else {
                CloudCommand::Ignore
            }
        } else {
            CloudCommand::UnknownType(owned(t))
        },
    }
}

} // verus!
