//! Failsafe mode: entered when forced by the environment or a marker file,
//! or after a crash whose log is left behind; the crash log decides the
//! reason shown.
use vstd::prelude::*;
use crate::text::{ascii_lower_chars, ascii_lower_seq, chars_of, contains_chars, contains_seq, owned, same_text};

verus! {

/// The crash log looked at when no other is named.
pub const FAILSAFE_DEFAULT_LAST_CRASH_PATH: &'static str = "/userdata/rustkvm/crashdump/last-crash.log";

/// The marker file that forces failsafe mode once.
pub const FAILSAFE_FILE: &'static str = "/userdata/rustkvm/.enablefailsafe";

/// How much of the end of a crash log is read, in bytes.
pub const CRASH_LOG_TAIL_BYTES: u64 = 51200;

/// Whether failsafe mode is on, why, and the crash log that caused it.
pub struct FailsafeState {
    pub active: bool,
    pub reason: String,
    pub crash_log: String,
}

impl Default for FailsafeState {
    fn default() -> (r: Self)
        ensures
            !r.active,
            r.reason@.len() == 0,
            r.crash_log@.len() == 0,
    {
        FailsafeState { active: false, reason: String::new(), crash_log: String::new() }
    }
}

/// What clients are told of failsafe mode.
pub struct FailsafeNotification {
    pub active: bool,
    pub reason: String,
}

/// What reading the last crash log gave.
pub enum CrashLogRead {
    /// There is no crash log.
    NotFound,
    /// It could not be examined.
    StatFailed,
    /// It is not a symbolic link, so it is ignored.
    NotSymlink,
    /// It could not be read.
    ReadFailed,
    /// Its last part.
    Content(String),
}

/// The reason a crash log gives, read without regard to ASCII case: a video
/// failure, a fatal signal, or something else.
pub open spec fn crash_reason(log: Seq<char>) -> Seq<char> {
    let lower = ascii_lower_seq(log);
    if contains_seq(lower, "video_max_restart_attempts_reached"@) || contains_seq(lower, "panic in video"@) {
        "video"@
    } else if contains_seq(lower, "sigsegv"@) || contains_seq(lower, "sigill"@) || contains_seq(lower, "sigbus"@) {
        "signal"@
    } else {
        "unknown"@
    }
}

fn contains_lit(hay: &[char], lit: &str) -> (r: bool)
    ensures
        r == contains_seq(hay@, lit@),
{
    let n = chars_of(lit);
    contains_chars(hay, n.as_slice())
}

/// The reason a crash log gives.
pub fn crash_reason_exec(log: &str) -> (r: &'static str)
    ensures
        r@ == crash_reason(log@),
{
    let cs = chars_of(log);
    let lower = ascii_lower_chars(cs.as_slice());
    let l = lower.as_slice();
    if contains_lit(l, "video_max_restart_attempts_reached") || contains_lit(l, "panic in video") {
        "video"
    } else if contains_lit(l, "sigsegv") || contains_lit(l, "sigill") || contains_lit(l, "sigbus") {
        "signal"
    } else {
        "unknown"
    }
}

/// The crash log to look at: the one the environment names, or the
/// default.
pub fn last_crash_path(env_value: Option<&str>) -> (r: String)
    ensures
        r@ == (match env_value {
            Some(p) => p@,
            None => FAILSAFE_DEFAULT_LAST_CRASH_PATH@,
        }),
{
    match env_value {
        Some(p) => owned(p),
        None => owned(FAILSAFE_DEFAULT_LAST_CRASH_PATH),
    }
}

/// Where reading the tail of a file of `size` bytes starts.
pub fn tail_offset(size: u64, max_bytes: u64) -> (r: u64)
    ensures
        r == (if size > max_bytes {
            size - max_bytes
        } else {
            0
        }),
{
    if size > max_bytes {
        size - max_bytes
    } else {
        0
    }
}

/// What the check at start-up decides: the failsafe state (none when not
/// entered), and which of the marker file and the crash log to delete.
pub struct FailsafeCheck {
    pub state: Option<FailsafeState>,
    pub remove_marker: bool,
    pub remove_crash_log: bool,
}

/// The check at start-up: failsafe mode is forced when the environment
/// variable is `1`, then when the marker file exists (it is then deleted);
/// otherwise it follows a crash log left as a symbolic link, which is
/// deleted after it was read and gives the reason.
pub fn check_failsafe_reason(env_force: Option<&str>, marker_exists: bool, crash: &CrashLogRead) -> (r: FailsafeCheck)
    ensures
        (match env_force {
            Some(v) => v@ == "1"@,
            None => false,
        }) ==> (r.state matches Some(s) && s.active && s.reason@ == "failsafe_env_set"@ && s.crash_log@.len() == 0
            && !r.remove_marker && !r.remove_crash_log),
        !(match env_force {
            Some(v) => v@ == "1"@,
            None => false,
        }) && marker_exists ==> (r.state matches Some(s) && s.active && s.reason@ == "failsafe_file_exists"@
            && s.crash_log@.len() == 0 && r.remove_marker && !r.remove_crash_log),
        !(match env_force {
            Some(v) => v@ == "1"@,
            None => false,
        }) && !marker_exists ==> (match crash {
            CrashLogRead::Content(log) => r.state matches Some(s) && s.active && s.reason@ == crash_reason(log@)
                && s.crash_log@ == log@ && !r.remove_marker && r.remove_crash_log,
            _ => r.state is None && !r.remove_marker && !r.remove_crash_log,
        }),
{
    let forced = match env_force {
        Some(v) => same_text(v, "1"),
        None => false,
    };
    if forced {
        return FailsafeCheck {
            state: Some(FailsafeState { active: true, reason: owned("failsafe_env_set"), crash_log: String::new() }),
            remove_marker: false,
            remove_crash_log: false,
        };
    }
    if marker_exists {
        return FailsafeCheck {
            state: Some(FailsafeState { active: true, reason: owned("failsafe_file_exists"), crash_log: String::new() }),
            remove_marker: true,
            remove_crash_log: false,
        };
    }
    match crash {
        CrashLogRead::Content(log) => {
            let reason = crash_reason_exec(log.as_str());
            FailsafeCheck {
                state: Some(FailsafeState { active: true, reason: owned(reason), crash_log: owned(log.as_str()) }),
                remove_marker: false,
                remove_crash_log: true,
            }
        },
        _ => FailsafeCheck { state: None, remove_marker: false, remove_crash_log: false },
    }
}

/// A copy of the failsafe state.
pub fn get_state(state: &Option<FailsafeState>) -> (r: Option<FailsafeState>)
    ensures
        match (r, *state) {
            (Some(a), Some(b)) => a.active == b.active && a.reason@ == b.reason@ && a.crash_log@ == b.crash_log@,
            (None, None) => true,
            _ => false,
        },
{
    match state {
        Some(s) => Some(
            FailsafeState { active: s.active, reason: owned(s.reason.as_str()), crash_log: owned(s.crash_log.as_str()) },
        ),
        None => None,
    }
}

/// Whether failsafe mode is on.
pub fn is_active(state: &Option<FailsafeState>) -> (r: bool)
    ensures
        r == (match *state {
            Some(s) => s.active,
            None => false,
        }),
{
    match state {
        Some(s) => s.active,
        None => false,
    }
}

/// What clients are told: nothing unless failsafe mode is on; then that
/// it is on, and why.
pub fn notification(state: &Option<FailsafeState>) -> (r: Option<FailsafeNotification>)
    ensures
        match *state {
            Some(s) => if s.active {
                r matches Some(n) && n.active && n.reason@ == s.reason@
            } else {
                r is None
            },
            None => r is None,
        },
{
    match state {
        Some(s) => {
            if s.active {
                Some(FailsafeNotification { active: true, reason: owned(s.reason.as_str()) })
            } else {
                None
            }
        },
        None => None,
    }
}

} // verus!
