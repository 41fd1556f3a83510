//! The network interface's state as reported to clients, built from the
//! interface addresses of the system, and when it counts as changed.
use vstd::prelude::*;
use crate::discovery::texts;
use vstd::string::*;
use crate::text::{chars_of, owned, same_text, starts_with, starts_with_chars, trimmed};

verus! {

/// The interface the device is reached on.
pub const NET_IF_NAME: &'static str = "eth0";

/// An address of an interface, as the system lists it.
pub enum IfAddress {
    /// An IPv4 address, as text.
    V4(String),
    /// An IPv6 address, as text, with its first 16-bit segment.
    V6(String, u16),
}

/// One address entry of the system's interface list.
pub struct IfEntry {
    pub name: String,
    pub is_loopback: bool,
    pub addr: IfAddress,
}

/// What a DHCP lease says that clients are shown.
pub struct DhcpLease {
    pub dns: Vec<String>,
}

/// The state of the device's interface.
pub struct InterfaceState {
    pub interface_name: String,
    pub up: bool,
    pub online: bool,
    pub ipv4_ready: bool,
    pub ipv6_ready: bool,
    pub ipv4_address: String,
    pub ipv6_address: String,
    pub ipv6_link_local: String,
    pub ipv6_gateway: String,
    pub ipv4_addresses: Vec<String>,
    pub ipv6_addresses: Vec<String>,
    pub dhcp_lease: Option<DhcpLease>,
}

/// What the state of the interface says.
pub struct StateView {
    pub up: bool,
    pub ipv4_ready: bool,
    pub ipv6_ready: bool,
    pub ipv4_address: Seq<char>,
    pub ipv6_address: Seq<char>,
    pub ipv6_link_local: Seq<char>,
    pub ipv4_addresses: Seq<Seq<char>>,
    pub ipv6_addresses: Seq<Seq<char>>,
}

/// Whether an entry belongs to the device's interface: `eth0`, or any name
/// beginning with `eth`.
pub open spec fn is_ours(name: Seq<char>) -> bool {
    name == NET_IF_NAME@ || starts_with(name, "eth"@)
}

/// Whether an IPv6 address is link-local (`fe80::/10`).
pub open spec fn is_link_local(first_segment: u16) -> bool {
    first_segment & 0xffc0u16 == 0xfe80u16
}

/// The state after one more entry: the interface is up unless the entry is
/// a loopback one; an IPv4 address is listed, the first becomes the
/// address, and IPv4 is ready; an IPv6 address is listed, the first
/// link-local one becomes the link-local address, and the first other one
/// the address, which makes IPv6 ready.
pub open spec fn step_state(s: StateView, e: IfEntry) -> StateView {
    if !is_ours(e.name@) {
        s
    } else {
        let s1 = StateView { up: !e.is_loopback, ..s };
        match e.addr {
            IfAddress::V4(t) => StateView {
                ipv4_addresses: s1.ipv4_addresses.push(t@),
                ipv4_address: if s1.ipv4_address.len() == 0 {
                    t@
                } else {
                    s1.ipv4_address
                },
                ipv4_ready: true,
                ..s1
            },
            IfAddress::V6(t, seg) => if is_link_local(seg) {
                StateView {
                    ipv6_link_local: if s1.ipv6_link_local.len() == 0 {
                        t@
                    } else {
                        s1.ipv6_link_local
                    },
                    ipv6_addresses: s1.ipv6_addresses.push(t@),
                    ..s1
                }
            } else {
                StateView {
                    ipv6_address: if s1.ipv6_address.len() == 0 {
                        t@
                    } else {
                        s1.ipv6_address
                    },
                    ipv6_ready: true,
                    ipv6_addresses: s1.ipv6_addresses.push(t@),
                    ..s1
                }
            },
        }
    }
}

/// The state before any entry.
pub open spec fn empty_state() -> StateView {
    StateView {
        up: false,
        ipv4_ready: false,
        ipv6_ready: false,
        ipv4_address: seq![],
        ipv6_address: seq![],
        ipv6_link_local: seq![],
        ipv4_addresses: seq![],
        ipv6_addresses: seq![],
    }
}

/// The state the entries give, taken in order.
pub open spec fn state_of(entries: Seq<IfEntry>) -> StateView
    decreases entries.len(),
{
    if entries.len() == 0 {
        empty_state()
    } else {
        step_state(state_of(entries.drop_last()), entries.last())
    }
}

/// What a state says.
pub open spec fn view_of(s: InterfaceState) -> StateView {
    StateView {
        up: s.up,
        ipv4_ready: s.ipv4_ready,
        ipv6_ready: s.ipv6_ready,
        ipv4_address: s.ipv4_address@,
        ipv6_address: s.ipv6_address@,
        ipv6_link_local: s.ipv6_link_local@,
        ipv4_addresses: texts(s.ipv4_addresses@),
        ipv6_addresses: texts(s.ipv6_addresses@),
    }
}

fn apply_entry(s: &mut InterfaceState, e: &IfEntry)
    ensures
        view_of(*final(s)) == step_state(view_of(*old(s)), *e),
        final(s).interface_name == old(s).interface_name,
        final(s).ipv6_gateway == old(s).ipv6_gateway,
        final(s).dhcp_lease == old(s).dhcp_lease,
        final(s).online == old(s).online,
{
    let name = chars_of(e.name.as_str());
    let eth = chars_of("eth");
    if !(same_text(e.name.as_str(), NET_IF_NAME) || starts_with_chars(name.as_slice(), eth.as_slice())) {
        return;
    }
    s.up = !e.is_loopback;
    match &e.addr {
        IfAddress::V4(t) => {
            let ghost prev = texts(s.ipv4_addresses@);
            s.ipv4_addresses.push(owned(t.as_str()));
            assert(texts(s.ipv4_addresses@) =~= prev.push(t@));
            if s.ipv4_address.as_str().unicode_len() == 0 {
                s.ipv4_address = owned(t.as_str());
            }
            s.ipv4_ready = true;
        },
        IfAddress::V6(t, seg) => {
            if *seg & 0xffc0u16 == 0xfe80u16 {
                if s.ipv6_link_local.as_str().unicode_len() == 0 {
                    s.ipv6_link_local = owned(t.as_str());
                }
            } else {
                if s.ipv6_address.as_str().unicode_len() == 0 {
                    s.ipv6_address = owned(t.as_str());
                }
                s.ipv6_ready = true;
            }
            let ghost prev = texts(s.ipv6_addresses@);
            s.ipv6_addresses.push(owned(t.as_str()));
            assert(texts(s.ipv6_addresses@) =~= prev.push(t@));
        },
    }
}

/// The interface's state from the system's address entries (none when the
/// list could not be read): what the entries give, and online exactly when
/// IPv4 or IPv6 is ready.
pub fn get_network_state(entries: Option<&Vec<IfEntry>>) -> (r: InterfaceState)
    ensures
        r.interface_name@ == NET_IF_NAME@,
        r.ipv6_gateway@.len() == 0,
        r.dhcp_lease is None,
        match entries {
            Some(es) => view_of(r) == state_of(es@) && r.online == (r.ipv4_ready || r.ipv6_ready),
            None => view_of(r) == empty_state() && !r.online,
        },
{
    let mut s = InterfaceState {
        interface_name: owned(NET_IF_NAME),
        up: false,
        online: false,
        ipv4_ready: false,
        ipv6_ready: false,
        ipv4_address: String::new(),
        ipv6_address: String::new(),
        ipv6_link_local: String::new(),
        ipv6_gateway: String::new(),
        ipv4_addresses: Vec::new(),
        ipv6_addresses: Vec::new(),
        dhcp_lease: None,
    };
    assert(view_of(s) =~= empty_state()) by {
        assert(texts(s.ipv4_addresses@) =~= Seq::<Seq<char>>::empty());
        assert(texts(s.ipv6_addresses@) =~= Seq::<Seq<char>>::empty());
    }
    let es = match entries {
        Some(es) => es,
        None => {
            return s;
        },
    };
    let mut i: usize = 0;
    while i < es.len()
        invariant
            i <= es@.len(),
            view_of(s) == state_of(es@.subrange(0, i as int)),
            s.interface_name@ == NET_IF_NAME@,
            s.ipv6_gateway@.len() == 0,
            s.dhcp_lease is None,
        decreases es@.len() - i,
    {
        assert(es@.subrange(0, i + 1).drop_last() =~= es@.subrange(0, i as int));
        apply_entry(&mut s, &es[i]);
        i = i + 1;
    }
    assert(es@.subrange(0, es@.len() as int) =~= es@);
    s.online = s.ipv4_ready || s.ipv6_ready;
    s
}

/// Whether the state counts as changed since the last one broadcast: always
/// at first; then when up, online, the two addresses or the IPv4 list
/// differ.
pub open spec fn state_changed(prev: Option<InterfaceState>, cur: InterfaceState) -> bool {
    match prev {
        None => true,
        Some(p) => p.up != cur.up || p.online != cur.online || p.ipv4_address@ != cur.ipv4_address@
            || p.ipv6_address@ != cur.ipv6_address@ || texts(p.ipv4_addresses@) != texts(cur.ipv4_addresses@),
    }
}

fn same_texts(a: &Vec<String>, b: &Vec<String>) -> (r: bool)
    ensures
        r == (texts(a@) == texts(b@)),
{
    if a.len() != b.len() {
        assert(texts(a@).len() != texts(b@).len());
        return false;
    }
    let mut i: usize = 0;
    while i < a.len()
        invariant
            a@.len() == b@.len(),
            i <= a@.len(),
            forall|j: int| 0 <= j < i ==> a@[j]@ == b@[j]@,
        decreases a@.len() - i,
    {
        if !same_text(a[i].as_str(), b[i].as_str()) {
            assert(texts(a@)[i as int] != texts(b@)[i as int]);
            return false;
        }
        i = i + 1;
    }
    assert(texts(a@) =~= texts(b@));
    true
}

/// Whether the state counts as changed since the last one broadcast.
pub fn network_changed(prev: Option<&InterfaceState>, cur: &InterfaceState) -> (r: bool)
    ensures
        r == state_changed(
            match prev {
                Some(p) => Some(*p),
                None => None,
            },
            *cur,
        ),
{
    match prev {
        None => true,
        Some(p) => p.up != cur.up || p.online != cur.online || !same_text(
            p.ipv4_address.as_str(),
            cur.ipv4_address.as_str(),
        ) || !same_text(p.ipv6_address.as_str(), cur.ipv6_address.as_str()) || !same_texts(
            &p.ipv4_addresses,
            &cur.ipv4_addresses,
        ),
    }
}

/// The host name to set: the configured one without surrounding white
/// space, unless that is empty or none is configured.
pub fn chosen_hostname(configured: Option<&str>, fallback: &str) -> (r: String)
    ensures
        r@ == (match configured {
            Some(h) => if trimmed(h@).len() > 0 {
                trimmed(h@)
            } else {
                fallback@
            },
            None => fallback@,
        }),
{
    match configured {
        Some(h) => {
            let t = crate::text::trim_text(h);
            if t.as_str().unicode_len() > 0 {
                t
            } else {
                owned(fallback)
            }
        },
        None => owned(fallback),
    }
}

/// Whether entry `e` is an address of the device's interface (`eth0` or a
/// name beginning with `eth`) that is an IPv6 address outside `fe80::/10`.
pub open spec fn global_v6_entry(e: IfEntry) -> bool {
    (e.name@ == "eth0"@ || starts_with(e.name@, "eth"@)) && match e.addr {
        IfAddress::V6(_, seg) => seg & 0xffc0u16 != 0xfe80u16,
        IfAddress::V4(_) => false,
    }
}

/// The address text of an entry.
pub open spec fn entry_text(e: IfEntry) -> Seq<char> {
    match e.addr {
        IfAddress::V4(t) => t@,
        IfAddress::V6(t, _) => t@,
    }
}

/// Whether entry `e` is an IPv4 address of the device's interface.
pub open spec fn v4_entry(e: IfEntry) -> bool {
    (e.name@ == "eth0"@ || starts_with(e.name@, "eth"@)) && e.addr is V4
}

/// IPv6 is ready exactly when some entry of the device's interface carries
/// an IPv6 address that is not link-local, and then the IPv6 address is the
/// first such one; a link-local address alone never makes IPv6 ready.
/// Likewise IPv4 is ready exactly when the interface has an IPv4 address,
/// the first of which is the IPv4 address.
pub proof fn lemma_ready_exactly_with_an_address(entries: Seq<IfEntry>)
    ensures
        state_of(entries).ipv6_ready <==> exists|i: int|
            0 <= i < entries.len() && #[trigger] global_v6_entry(entries[i]),
        state_of(entries).ipv4_ready <==> exists|i: int| 0 <= i < entries.len() && #[trigger] v4_entry(entries[i]),
        forall|i: int|
            0 <= i < entries.len() && #[trigger] global_v6_entry(entries[i]) && (forall|j: int|
                0 <= j < i ==> !global_v6_entry(#[trigger] entries[j])) ==> (entry_text(entries[i]).len() > 0
                ==> state_of(entries).ipv6_address == entry_text(entries[i])),
        forall|i: int|
            0 <= i < entries.len() && #[trigger] v4_entry(entries[i]) && (forall|j: int|
                0 <= j < i ==> !v4_entry(#[trigger] entries[j])) ==> (entry_text(entries[i]).len() > 0
                ==> state_of(entries).ipv4_address == entry_text(entries[i])),
    decreases entries.len(),
{
    if entries.len() > 0 {
        let init = entries.drop_last();
        lemma_ready_exactly_with_an_address(init);
        let e = entries.last();
        let n = entries.len() - 1;
        assert(NET_IF_NAME@ == "eth0"@);
        assert forall|i: int| 0 <= i < n implies entries[i] == init[i] by {}
        if global_v6_entry(e) {
            assert(global_v6_entry(entries[n]));
        }
        if v4_entry(e) {
            assert(v4_entry(entries[n]));
        }
        assert(state_of(entries) == step_state(state_of(init), e));
        assert forall|i: int|
            0 <= i < entries.len() && #[trigger] global_v6_entry(entries[i]) && (forall|j: int|
                0 <= j < i ==> !global_v6_entry(#[trigger] entries[j])) && entry_text(entries[i]).len() > 0 implies state_of(
                entries,
            ).ipv6_address == entry_text(entries[i]) by {
            if i < n {
                assert(global_v6_entry(init[i]));
                assert forall|j: int| 0 <= j < i implies !global_v6_entry(#[trigger] init[j]) by {
                    assert(!global_v6_entry(entries[j]));
                }
            } else {
                assert forall|j: int| 0 <= j < n implies !global_v6_entry(#[trigger] init[j]) by {
                    assert(!global_v6_entry(entries[j]));
                }
                lemma_no_global_v6_keeps_address(init);
            }
        }
        assert forall|i: int|
            0 <= i < entries.len() && #[trigger] v4_entry(entries[i]) && (forall|j: int|
                0 <= j < i ==> !v4_entry(#[trigger] entries[j])) && entry_text(entries[i]).len() > 0 implies state_of(
                entries,
            ).ipv4_address == entry_text(entries[i]) by {
            if i < n {
                assert(v4_entry(init[i]));
                assert forall|j: int| 0 <= j < i implies !v4_entry(#[trigger] init[j]) by {
                    assert(!v4_entry(entries[j]));
                }
            } else {
                assert forall|j: int| 0 <= j < n implies !v4_entry(#[trigger] init[j]) by {
                    assert(!v4_entry(entries[j]));
                }
                lemma_no_v4_keeps_address(init);
            }
        }
        if state_of(init).ipv6_ready {
            let k = choose|i: int| 0 <= i < init.len() && #[trigger] global_v6_entry(init[i]);
            assert(global_v6_entry(entries[k]));
        }
        if state_of(init).ipv4_ready {
            let k = choose|i: int| 0 <= i < init.len() && #[trigger] v4_entry(init[i]);
            assert(v4_entry(entries[k]));
        }
        if exists|i: int| 0 <= i < entries.len() && #[trigger] global_v6_entry(entries[i]) {
            let k = choose|i: int| 0 <= i < entries.len() && #[trigger] global_v6_entry(entries[i]);
            if k < n {
                assert(global_v6_entry(init[k]));
            }
        }
        if exists|i: int| 0 <= i < entries.len() && #[trigger] v4_entry(entries[i]) {
            let k = choose|i: int| 0 <= i < entries.len() && #[trigger] v4_entry(entries[i]);
            if k < n {
                assert(v4_entry(init[k]));
            }
        }
    }
}

/// Without an IPv6 address outside `fe80::/10` the IPv6 address is empty.
proof fn lemma_no_global_v6_keeps_address(entries: Seq<IfEntry>)
    requires
        forall|j: int| 0 <= j < entries.len() ==> !global_v6_entry(#[trigger] entries[j]),
    ensures
        state_of(entries).ipv6_address.len() == 0,
    decreases entries.len(),
{
    if entries.len() > 0 {
        let init = entries.drop_last();
        assert forall|j: int| 0 <= j < init.len() implies !global_v6_entry(#[trigger] init[j]) by {
            assert(init[j] == entries[j]);
        }
        lemma_no_global_v6_keeps_address(init);
        assert(!global_v6_entry(entries[entries.len() - 1]));
        assert(NET_IF_NAME@ == "eth0"@);
    }
}

/// Without an IPv4 address the IPv4 address is empty.
proof fn lemma_no_v4_keeps_address(entries: Seq<IfEntry>)
    requires
        forall|j: int| 0 <= j < entries.len() ==> !v4_entry(#[trigger] entries[j]),
    ensures
        state_of(entries).ipv4_address.len() == 0,
    decreases entries.len(),
{
    if entries.len() > 0 {
        let init = entries.drop_last();
        assert forall|j: int| 0 <= j < init.len() implies !v4_entry(#[trigger] init[j]) by {
            assert(init[j] == entries[j]);
        }
        lemma_no_v4_keeps_address(init);
        assert(!v4_entry(entries[entries.len() - 1]));
        assert(NET_IF_NAME@ == "eth0"@);
    }
}

} // verus!
