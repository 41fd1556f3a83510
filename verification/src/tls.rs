//! The TLS mode of the web server: what is reported and what a change
//! requires.
use vstd::prelude::*;
use crate::text::{owned, same_text};

verus! {

/// The TLS state reported to clients.
pub struct TlsState {
    pub mode: String,
    pub certificate: Option<String>,
    pub private_key: Option<String>,
}

impl Default for TlsState {
    fn default() -> (r: Self)
        ensures
            r.mode@.len() == 0,
            r.certificate is None,
            r.private_key is None,
    {
        TlsState { mode: String::new(), certificate: None, private_key: None }
    }
}

/// The TLS state reported for the configured mode: `custom`, or
/// `self-signed` for anything else; certificate and key are not given out.
pub fn get_tls_state(tls_mode: &str) -> (r: TlsState)
    ensures
        r.mode@ == (if tls_mode@ == "custom"@ {
            "custom"@
        } else {
            "self-signed"@
        }),
        r.certificate is None,
        r.private_key is None,
{
    let mode = if same_text(tls_mode, "custom") {
        owned("custom")
    } else {
        owned("self-signed")
    };
    TlsState { mode, certificate: None, private_key: None }
}

/// Why a TLS change was refused.
#[derive(Debug, PartialEq, Eq)]
pub enum TlsError {
    /// TLS cannot be switched off.
    DisabledNotSupported,
    /// The mode is none of the known ones.
    InvalidMode(String),
    /// Custom mode needs a certificate and a key.
    MissingCertificate,
}

/// Whether an optional text is absent or empty.
pub open spec fn blank(o: Option<&str>) -> bool {
    match o {
        Some(s) => s@.len() == 0,
        None => true,
    }
}

/// Checks a TLS change: `disabled` is refused, so is an unknown mode, and
/// custom mode without both a certificate and a key; otherwise the mode
/// stored (`custom` or `self-signed`).
pub fn apply_tls_state(mode: &str, certificate: Option<&str>, private_key: Option<&str>) -> (r: Result<&'static str, TlsError>)
    ensures
        mode@ == "disabled"@ ==> r == Err::<&'static str, TlsError>(TlsError::DisabledNotSupported),
        mode@ != "disabled"@ && mode@ != "custom"@ && mode@ != "self-signed"@ ==> (r matches Err(
            TlsError::InvalidMode(m),
        ) && m@ == mode@),
        mode@ == "custom"@ && (blank(certificate) || blank(private_key)) ==> r == Err::<&'static str, TlsError>(
            TlsError::MissingCertificate,
        ),
        mode@ == "custom"@ && !blank(certificate) && !blank(private_key) ==> (r matches Ok(m) && m@ == "custom"@),
        mode@ == "self-signed"@ ==> (r matches Ok(m) && m@ == "self-signed"@),
{
    proof {
        reveal_strlit("disabled");
        reveal_strlit("custom");
        reveal_strlit("self-signed");
        assert("disabled"@[0] != "custom"@[0]);
        assert("custom"@[0] != "self-signed"@[0]);
        assert("disabled"@[0] != "self-signed"@[0]);
    }
    if same_text(mode, "disabled") {
        return Err(TlsError::DisabledNotSupported);
    }
    let custom = same_text(mode, "custom");
    if !custom && !same_text(mode, "self-signed") {
        return Err(TlsError::InvalidMode(owned(mode)));
    }
    if custom {
        let no_cert = match certificate {
            Some(c) => c.unicode_len() == 0,
            None => true,
        };
        let no_key = match private_key {
            Some(k) => k.unicode_len() == 0,
            None => true,
        };
        if no_cert || no_key {
            return Err(TlsError::MissingCertificate);
        }
        Ok("custom")
    } else {
        Ok("self-signed")
    }
}

/// The names the self-signed certificate is made for: `localhost`,
/// `127.0.0.1`, and the local address when known.
pub fn subject_alt_names(local_ip: Option<&str>) -> (r: Vec<String>)
    ensures
        crate::discovery::texts(r@) == (match local_ip {
            Some(ip) => seq!["localhost"@, "127.0.0.1"@, ip@],
            None => seq!["localhost"@, "127.0.0.1"@],
        }),
{
    let mut v = vec![owned("localhost"), owned("127.0.0.1")];
    match local_ip {
        Some(ip) => {
            v.push(owned(ip));
            assert(crate::discovery::texts(v@) =~= seq!["localhost"@, "127.0.0.1"@, ip@]);
        },
        None => {
            assert(crate::discovery::texts(v@) =~= seq!["localhost"@, "127.0.0.1"@]);
        },
    }
    v
}

} // verus!
