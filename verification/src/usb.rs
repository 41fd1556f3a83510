//! The USB side of the device: the controller's state as the host sees it,
//! the choice of controller, and the serial number the gadget presents.
use vstd::prelude::*;
use crate::discovery::texts;
use crate::text::{
    ascii_upper, chars_of, ends_with, ends_with_chars, is_hex_digit, owned, same_text, string_of,
    trim_chars, trimmed,
};

verus! {

/// The state shown before any is read.
pub const UNKNOWN_STATE: &'static str = "unknown";

/// The controller's state as last read (`configured`, `not attached`, ...).
pub struct UsbState {
    pub state: String,
}

impl Default for UsbState {
    fn default() -> (r: Self)
        ensures
            r.state@ == UNKNOWN_STATE@,
    {
        UsbState { state: owned(UNKNOWN_STATE) }
    }
}

/// The text a state file gives: its content without surrounding white
/// space, or `unknown` when it cannot be read.
pub open spec fn state_text(read: Option<Seq<char>>) -> Seq<char> {
    match read {
        Some(t) => trimmed(t),
        None => UNKNOWN_STATE@,
    }
}

/// The state a read of the controller's state file gives.
pub fn udc_state_text(read: Option<&str>) -> (r: String)
    ensures
        r@ == state_text(match read {
            Some(t) => Some(t@),
            None => None,
        }),
{
    match read {
        Some(t) => {
            let cs = chars_of(t);
            let tc = trim_chars(cs.as_slice());
            string_of(tc.as_slice())
        },
        None => owned(UNKNOWN_STATE),
    }
}

/// What tracks the controller: its name, where its state is read, and the
/// state last seen.
pub struct UsbManager {
    pub udc_name: String,
    pub udc_state_path: String,
    pub state: UsbState,
}

impl UsbManager {
    /// The manager of the controller `udc_name`, its state not yet known.
    pub fn new(udc_name: String) -> (r: Self)
        ensures
            r.udc_name@ == udc_name@,
            r.udc_state_path@ == "/sys/class/udc/"@ + udc_name@ + "/state"@,
            r.state.state@ == UNKNOWN_STATE@,
    {
        let mut p = owned("/sys/class/udc/");
        p.append(udc_name.as_str());
        p.append("/state");
        UsbManager { udc_name, udc_state_path: p, state: UsbState::default() }
    }

    /// The state last seen.
    pub fn get_usb_state(&self) -> (r: String)
        ensures
            r@ == self.state.state@,
    {
        owned(self.state.state.as_str())
    }

    /// The controller's name.
    pub fn get_udc_name(&self) -> (r: &str)
        ensures
            r@ == self.udc_name@,
    {
        self.udc_name.as_str()
    }
}

/// The state of the USB link: the manager's, or `unknown` without one.
pub fn get_current_usb_state(manager: Option<&UsbManager>) -> (r: String)
    ensures
        r@ == (match manager {
            Some(m) => m.state.state@,
            None => UNKNOWN_STATE@,
        }),
{
    match manager {
        Some(m) => m.get_usb_state(),
        None => owned(UNKNOWN_STATE),
    }
}

/// The poller of the controller's state: the state it last reported
/// (empty before the first report).
pub struct UsbPoller {
    pub last_state: String,
}

impl UsbPoller {
    /// A poller that has reported nothing yet.
    pub fn new() -> (r: Self)
        ensures
            r.last_state@.len() == 0,
    {
        UsbPoller { last_state: String::new() }
    }

    /// One poll: nothing when the state file is missing; otherwise the
    /// state read (`unknown` when it cannot be read) is reported when it
    /// differs from the last one reported.
    pub fn poll(&mut self, exists: bool, read: Option<&str>) -> (r: Option<String>)
        ensures
            !exists ==> r is None && final(self).last_state@ == old(self).last_state@,
            exists ==> {
                let new = state_text(
                    match read {
                        Some(t) => Some(t@),
                        None => None,
                    },
                );
                &&& final(self).last_state@ == new
                &&& (new == old(self).last_state@ ==> r is None)
                &&& (new != old(self).last_state@ ==> (r matches Some(s) && s@ == new))
            },
    {
        if !exists {
            return None;
        }
        let new = udc_state_text(read);
        if same_text(new.as_str(), self.last_state.as_str()) {
            None
        } else {
            self.last_state = owned(new.as_str());
            Some(new)
        }
    }
}

/// The names among the platform's entries that are directories named
/// `*.usb`, in order.
pub open spec fn platform_udcs(entries: Seq<(Seq<char>, bool)>) -> Seq<Seq<char>>
    decreases entries.len(),
{
    if entries.len() == 0 {
        seq![]
    } else {
        let e = entries.last();
        platform_udcs(entries.drop_last()) + if e.1 && ends_with(e.0, ".usb"@) {
            seq![e.0]
        } else {
            seq![]
        }
    }
}

/// The controllers to use: those of the platform's device directory (its
/// entries with whether each is a directory) when it has any; otherwise
/// those listed under the UDC class (nothing when it cannot be read).
pub fn select_udcs(platform: &Vec<(String, bool)>, class: Option<&Vec<String>>) -> (r: Vec<String>)
    ensures
        texts(r@) == {
            let p = platform_udcs(platform@.map_values(|e: (String, bool)| (e.0@, e.1)));
            if p.len() > 0 {
                p
            } else {
                match class {
                    Some(c) => texts(c@),
                    None => seq![],
                }
            }
        },
{
    let ghost pv = platform@.map_values(|e: (String, bool)| (e.0@, e.1));
    let mut r: Vec<String> = Vec::new();
    let suffix = chars_of(".usb");
    let mut i: usize = 0;
    while i < platform.len()
        invariant
            i <= platform@.len(),
            pv == platform@.map_values(|e: (String, bool)| (e.0@, e.1)),
            suffix@ == ".usb"@,
            texts(r@) == platform_udcs(pv.subrange(0, i as int)),
        decreases platform@.len() - i,
    {
        assert(pv.subrange(0, i + 1).drop_last() =~= pv.subrange(0, i as int));
        let name = chars_of(platform[i].0.as_str());
        if platform[i].1 && ends_with_chars(name.as_slice(), suffix.as_slice()) {
            let ghost prev = texts(r@);
            r.push(owned(platform[i].0.as_str()));
            assert(texts(r@) =~= prev.push(platform@[i as int].0@));
        } else {
            assert(platform_udcs(pv.subrange(0, i + 1)) =~= platform_udcs(pv.subrange(0, i as int)));
        }
        i = i + 1;
    }
    assert(pv.subrange(0, pv.len() as int) =~= pv);
    if r.len() > 0 {
        return r;
    }
    match class {
        Some(c) => crate::discovery::copy_strings(c),
        None => r,
    }
}

/// Whether another gadget is bound to controller `udc` and must be
/// detached: it is not ours, and its `UDC` file names the controller.
pub fn should_unbind(entry_name: &str, our_name: &str, udc_file: Option<&str>, udc: &str) -> (r: bool)
    ensures
        r == (entry_name@ != our_name@ && match udc_file {
            Some(t) => trimmed(t@) == udc@,
            None => false,
        }),
{
    if same_text(entry_name, our_name) {
        return false;
    }
    match udc_file {
        Some(t) => {
            let cs = chars_of(t);
            let tc = trim_chars(cs.as_slice());
            let u = chars_of(udc);
            crate::text::chars_eq(tc.as_slice(), u.as_slice())
        },
        None => false,
    }
}

/// The hex digits of a text, upper-cased, at most sixteen.
pub open spec fn hex_part(s: Seq<char>) -> Seq<char>
    decreases s.len(),
{
    if s.len() == 0 {
        seq![]
    } else {
        let h = hex_part(s.drop_last());
        if h.len() < 16 && is_hex_digit(s.last()) {
            h.push(ascii_upper(s.last()))
        } else {
            h
        }
    }
}

proof fn lemma_hex_part_bounded(s: Seq<char>)
    ensures
        hex_part(s).len() <= 16,
    decreases s.len(),
{
    if s.len() > 0 {
        lemma_hex_part_bounded(s.drop_last());
    }
}

/// The serial number presented: `RUSTKVM-` and the hex digits of the
/// board's serial number (at most sixteen, upper case), or, when it has
/// none, the first sixteen characters of `fallback`.
pub open spec fn serial_of(serial: Option<Seq<char>>, fallback: Seq<char>) -> Seq<char> {
    let h = match serial {
        Some(s) => hex_part(s),
        None => seq![],
    };
    "RUSTKVM-"@ + if h.len() > 0 {
        h
    } else if fallback.len() <= 16 {
        fallback
    } else {
        fallback.subrange(0, 16)
    }
}

/// The serial number for a board serial number and a fallback text.
pub fn usb_serial_from(serial: Option<&str>, fallback: &str) -> (r: String)
    ensures
        r@ == serial_of(
            match serial {
                Some(s) => Some(s@),
                None => None,
            },
            fallback@,
        ),
{
    let mut hex: Vec<char> = Vec::new();
    let ghost sv = match serial {
        Some(s) => s@,
        None => Seq::<char>::empty(),
    };
    if let Some(s) = serial {
        let cs = chars_of(s);
        let mut i: usize = 0;
        while i < cs.len()
            invariant
                i <= cs@.len(),
                cs@ == s@,
                hex@ == hex_part(cs@.subrange(0, i as int)),
            decreases cs@.len() - i,
        {
            assert(cs@.subrange(0, i + 1).drop_last() =~= cs@.subrange(0, i as int));
            proof {
                lemma_hex_part_bounded(cs@.subrange(0, i as int));
            }
            if hex.len() < 16 && crate::text::is_hex_digit_exec(cs[i]) {
                hex.push(crate::text::ascii_upper_exec(cs[i]));
            }
            i = i + 1;
        }
        assert(cs@.subrange(0, cs@.len() as int) =~= cs@);
    }
    let mut out = owned("RUSTKVM-");
    if hex.len() > 0 {
        let h = string_of(hex.as_slice());
        out.append(h.as_str());
    } else {
        let f = chars_of(fallback);
        let n: usize = if f.len() <= 16 {
            f.len()
        } else {
            16
        };
        let part = crate::text::slice_range(f.as_slice(), 0, n);
        let ps = string_of(part.as_slice());
        out.append(ps.as_str());
        assert(f@.subrange(0, f@.len() as int) =~= f@);
    }
    out
}

/// Whether a character is an upper-case hex digit.
pub open spec fn is_upper_hex(c: char) -> bool {
    ('0' <= c <= '9') || ('A' <= c <= 'F')
}

/// A new random (version 4) UUID in its simple upper-case form
/// (`uuid::Uuid::new_v4` and `Simple::encode_upper`): thirty-two upper-case
/// hex digits; which ones is chance.
#[verifier::external_body]
fn random_uuid_upper_hex() -> (r: String)
    ensures
        r@.len() == 32,
        forall|i: int| 0 <= i < 32 ==> is_upper_hex(#[trigger] r@[i]),
{
    let mut buf = uuid::Uuid::encode_buffer();
    uuid::Uuid::new_v4().as_simple().encode_upper(&mut buf).to_string()
}

/// The serial number presented for the board's serial number: when that
/// has hex digits the result is fixed by them; otherwise sixteen random
/// upper-case hex digits follow `RUSTKVM-`.
pub fn usb_serial(serial: Option<&str>) -> (r: String)
    ensures
        r@.len() > 8,
        r@.subrange(0, 8) == "RUSTKVM-"@,
        (match serial {
            Some(s) => hex_part(s@).len() > 0,
            None => false,
        }) ==> r@ == serial_of(
            match serial {
                Some(s) => Some(s@),
                None => None,
            },
            Seq::empty(),
        ),
        (match serial {
            Some(s) => hex_part(s@).len() == 0,
            None => true,
        }) ==> r@.len() == 24 && forall|i: int| 8 <= i < 24 ==> is_upper_hex(#[trigger] r@[i]),
{
    let fallback = random_uuid_upper_hex();
    let r = usb_serial_from(serial, fallback.as_str());
    proof {
        reveal_strlit("RUSTKVM-");
        let h = match serial {
            Some(s) => hex_part(s@),
            None => seq![],
        };
        assert(("RUSTKVM-"@ + h).subrange(0, 8) =~= "RUSTKVM-"@);
        assert(("RUSTKVM-"@ + fallback@.subrange(0, 16)).subrange(0, 8) =~= "RUSTKVM-"@);
    }
    r
}

} // verus!
