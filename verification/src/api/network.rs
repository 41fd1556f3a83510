//! Network and cloud methods.
use vstd::prelude::*;
use crate::discovery::{opt_text, texts};
use crate::network::InterfaceState;
use crate::text::{contains_seq, owned, same_text};

verus! {

/// An address to remember.
pub struct NetworkIpParam {
    pub ip: String,
}

/// The address shown: the interface's IPv4 address, or, without one, the
/// one last set by a client.
pub fn get_network_ip_address(ipv4_address: &str, stored: &str) -> (r: String)
    ensures
        r@ == (if ipv4_address@.len() > 0 {
            ipv4_address@
        } else {
            stored@
        }),
{
    if ipv4_address.unicode_len() > 0 {
        owned(ipv4_address)
    } else {
        owned(stored)
    }
}

/// The network state, as reported.
pub struct NetworkStateResponse {
    pub online: bool,
    pub ip: String,
    pub gateway: Option<String>,
    pub dns: Vec<String>,
}

/// The network state reported: online, the IPv4 address, the IPv6 gateway
/// when known, and the DNS servers of the DHCP lease (none without one).
pub fn network_state_response(s: &InterfaceState) -> (r: NetworkStateResponse)
    ensures
        r.online == s.online,
        r.ip@ == s.ipv4_address@,
        opt_text(r.gateway) == (if s.ipv6_gateway@.len() == 0 {
            None
        } else {
            Some(s.ipv6_gateway@)
        }),
        texts(r.dns@) == (match s.dhcp_lease {
            Some(l) => texts(l.dns@),
            None => seq![],
        }),
{
    NetworkStateResponse {
        online: s.online,
        ip: owned(s.ipv4_address.as_str()),
        gateway: if s.ipv6_gateway.as_str().unicode_len() == 0 {
            None
        } else {
            Some(owned(s.ipv6_gateway.as_str()))
        },
        dns: match &s.dhcp_lease {
            Some(l) => crate::discovery::copy_strings(&l.dns),
            None => {
                let v: Vec<String> = Vec::new();
                assert(texts(v@) =~= Seq::<Seq<char>>::empty());
                v
            },
        },
    }
}

/// The network settings, as reported.
pub struct NetworkSettingsResponse {
    pub dhcp_enabled: bool,
    pub static_ip: Option<String>,
    pub gateway: Option<String>,
    pub dns: Vec<String>,
}

/// The settings reported for an IPv4 mode: DHCP unless the mode is
/// `static`; nothing else is reported.
pub fn get_network_settings(ipv4_mode: &str) -> (r: NetworkSettingsResponse)
    ensures
        r.dhcp_enabled == (ipv4_mode@ != "static"@),
        r.static_ip is None,
        r.gateway is None,
        r.dns@.len() == 0,
{
    NetworkSettingsResponse {
        dhcp_enabled: !same_text(ipv4_mode, "static"),
        static_ip: None,
        gateway: None,
        dns: Vec::new(),
    }
}

/// New network settings.
pub struct NetworkSettingsParams {
    pub settings: NetworkSettingsResponse,
}

/// The IPv4 mode that settings ask for, and whether it differs from the
/// current one (a change is announced as a coming reboot).
pub fn set_network_settings(params: &NetworkSettingsParams, current_mode: &str) -> (r: (&'static str, bool))
    ensures
        r.0@ == (if params.settings.dhcp_enabled {
            "dhcp"@
        } else {
            "static"@
        }),
        r.1 == (current_mode@ != r.0@),
{
    let mode: &'static str = if params.settings.dhcp_enabled {
        "dhcp"
    } else {
        "static"
    };
    (mode, !same_text(current_mode, mode))
}

/// The arguments of the DHCP client asked to renew the lease of an
/// interface.
pub fn renew_dhcp_lease(if_name: &str) -> (r: Vec<String>)
    ensures
        texts(r@) == seq!["-i"@, if_name@, "-q"@, "-n"@, "-t"@, "3"@],
{
    let v = vec![owned("-i"), owned(if_name), owned("-q"), owned("-n"), owned("-t"), owned("3")];
    assert(texts(v@) =~= seq!["-i"@, if_name@, "-q"@, "-n"@, "-t"@, "3"@]);
    v
}

/// New Wake-on-LAN devices.
pub struct SetWakeOnLanDevicesParams {
    pub devices: Vec<crate::config::WakeOnLanDevice>,
}

/// A magic packet to send.
pub struct SendWOLMagicPacketParams {
    pub mac_address: String,
    pub broadcast_ip: Option<String>,
}

/// Local-loopback-only mode on or off.
pub struct LocalLoopbackParams {
    pub enabled: bool,
}

/// The public addresses.
pub struct PublicIPResponse {
    pub ipv4: Option<String>,
    pub ipv6: Option<String>,
}

/// Whether to refresh the public addresses.
pub struct CheckPublicIPParams {
    pub refresh: Option<bool>,
}

/// The text of a successful lookup: its body without surrounding white
/// space, nothing when that is empty or the lookup failed.
pub fn fetched_text(body: Option<&str>) -> (r: Option<String>)
    ensures
        opt_text(r) == (match body {
            Some(b) => if crate::text::trimmed(b@).len() > 0 {
                Some(crate::text::trimmed(b@))
            } else {
                None
            },
            None => None,
        }),
{
    match body {
        Some(b) => {
            let t = crate::text::trim_text(b);
            if t.as_str().unicode_len() > 0 {
                Some(t)
            } else {
                None
            }
        },
        None => None,
    }
}

/// The public addresses reported: the IPv4 lookup as it is, the IPv6 one
/// only when it contains a colon.
pub fn public_ip_response(ipv4: Option<String>, ipv6: Option<String>) -> (r: PublicIPResponse)
    ensures
        r.ipv4 == ipv4,
        opt_text(r.ipv6) == (match ipv6 {
            Some(v) => if contains_seq(v@, seq![':']) {
                Some(v@)
            } else {
                None
            },
            None => None,
        }),
{
    let v6 = match ipv6 {
        Some(v) => {
            let cs = crate::text::chars_of(v.as_str());
            if crate::text::has_char(cs.as_slice(), ':') {
                proof {
                    let i = choose|i: int| 0 <= i < v@.len() && v@[i] == ':';
                    assert(v@.subrange(i, i + 1) =~= seq![':']);
                    assert(crate::text::occurs_at(v@, seq![':'], i));
                }
                Some(v)
            } else {
                proof {
                    assert forall|i: int| !crate::text::occurs_at(v@, seq![':'], i) by {
                        if crate::text::occurs_at(v@, seq![':'], i) {
                            assert(v@.subrange(i, i + 1)[0] == v@[i]);
                        }
                    }
                }
                None
            }
        },
        None => None,
    };
    PublicIPResponse { ipv4, ipv6: v6 }
}

/// A cloud state by name.
pub struct CloudStateParam {
    pub state: String,
}

/// The cloud's URLs.
pub struct CloudUrlParams {
    pub api_url: String,
    pub app_url: String,
}

/// A Tailscale control URL.
pub struct TailscaleControlUrlParams {
    pub control_url: String,
}

} // verus!
