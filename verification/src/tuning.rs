//! Platform tuning for RK3588 boards: recognising the board from its
//! device-tree `compatible` list, and choosing the interrupts whose
//! affinity is moved to the big cores.
use vstd::prelude::*;
use crate::text::{
    chars_of, contains_chars, contains_seq, ends_with, ends_with_chars, index_of_char,
    index_of_char_exec, lines, lines_of, occurs_at, occurs_at_exec, parse_unsigned,
    parse_unsigned_exec, slice_range, trim_chars, trim_end, trim_end_chars, trimmed,
};

verus! {

/// The big (Cortex-A76) cores of an RK3588.
pub const BIG_CORES: [usize; 4] = [4, 5, 6, 7];

/// The affinity mask that selects the big cores.
pub const BIG_CORE_AFFINITY_MASK: &'static str = "f0";

/// The entry of the device-tree `compatible` list that names an RK3588.
pub const RK3588_COMPATIBLE: &'static str = "rockchip,rk3588";

/// `t` stands at position `i` of the NUL-separated list `s` as a whole
/// entry: it occurs there, and a NUL or the end of the list is on each side.
pub open spec fn entry_at(s: Seq<char>, t: Seq<char>, i: int) -> bool {
    &&& occurs_at(s, t, i)
    &&& (i == 0 || s[i - 1] == '\0')
    &&& (i + t.len() == s.len() || s[i + t.len()] == '\0')
}

/// Whether a device-tree `compatible` list names an RK3588.
pub open spec fn names_rk3588(compatible: Seq<char>) -> bool {
    exists|i: int| entry_at(compatible, RK3588_COMPATIBLE@, i)
}

fn entry_at_exec(s: &[char], t: &[char], i: usize) -> (r: bool)
    ensures
        r == entry_at(s@, t@, i as int),
{
    if !occurs_at_exec(s, t, i) {
        return false;
    }
    let n = s.len();
    assert(i + t@.len() <= n);
    let end = i + t.len();
    (i == 0 || s[i - 1] == '\0') && (end == n || s[end] == '\0')
}

/// Whether the device-tree `compatible` list (its entries separated by NUL
/// characters) names an RK3588.
pub fn is_rk3588(compatible: &str) -> (r: bool)
    ensures
        r == names_rk3588(compatible@),
{
    let s = chars_of(compatible);
    let t = chars_of(RK3588_COMPATIBLE);
    let n = s.len();
    let mut i: usize = 0;
    loop
        invariant
            n == s@.len(),
            s@ == compatible@,
            t@ == RK3588_COMPATIBLE@,
            i <= n,
            forall|j: int| 0 <= j < i ==> !entry_at(s@, t@, j),
        decreases n - i,
    {
        if entry_at_exec(s.as_slice(), t.as_slice(), i) {
            return true;
        }
        if i == n {
            assert forall|j: int| !entry_at(s@, t@, j) by {
                if 0 <= j && j < i {
                }
            }
            return false;
        }
        i = i + 1;
    }
}

/// Whether the driver part of an `/proc/interrupts` line names a device
/// whose interrupts are hot: the video encoder or decoder, the JPEG unit,
/// or the USB-3 gadget controller.
pub open spec fn is_hot_irq_field(field: Seq<char>) -> bool {
    ||| contains_seq(field, "rkvenc-core"@)
    ||| contains_seq(field, "rkvdec-core"@)
    ||| contains_seq(field, "rkjpeg"@)
    ||| ends_with(trim_end(field), "dwc3"@)
}

/// Whether the driver part of an `/proc/interrupts` line names a hot device.
pub fn is_hot_irq(driver_field: &str) -> (r: bool)
    ensures
        r == is_hot_irq_field(driver_field@),
{
    let f = chars_of(driver_field);
    is_hot_irq_chars(f.as_slice())
}

fn is_hot_irq_chars(f: &[char]) -> (r: bool)
    ensures
        r == is_hot_irq_field(f@),
{
    let venc = chars_of("rkvenc-core");
    let vdec = chars_of("rkvdec-core");
    let jpeg = chars_of("rkjpeg");
    let dwc3 = chars_of("dwc3");
    if contains_chars(f, venc.as_slice()) || contains_chars(f, vdec.as_slice()) || contains_chars(
        f,
        jpeg.as_slice(),
    ) {
        return true;
    }
    let t = trim_end_chars(f);
    ends_with_chars(t.as_slice(), dwc3.as_slice())
}

/// The interrupt of one `/proc/interrupts` line that is to be pinned: the
/// number before the first colon, when it reads as a `u32` once trimmed and
/// the rest of the line names a hot device.
pub open spec fn hot_irq_of_line(line: Seq<char>) -> Option<u32> {
    let i = index_of_char(line, ':');
    if i < 0 {
        None
    } else {
        match parse_unsigned(trimmed(line.take(i)), 0xffff_ffff) {
            Some(n) => if is_hot_irq_field(line.skip(i + 1)) {
                Some(n as u32)
            } else {
                None
            },
            None => None,
        }
    }
}

/// The interrupts to pin, in the order of their lines.
pub open spec fn hot_irqs_in(lines: Seq<Seq<char>>) -> Seq<u32>
    decreases lines.len(),
{
    if lines.len() == 0 {
        seq![]
    } else {
        let rest = hot_irqs_in(lines.drop_last());
        match hot_irq_of_line(lines.last()) {
            Some(n) => rest.push(n),
            None => rest,
        }
    }
}

fn hot_irq_of_line_exec(line: &[char]) -> (r: Option<u32>)
    ensures
        r == hot_irq_of_line(line@),
{
    match index_of_char_exec(line, ':') {
        None => None,
        Some(i) => {
            let ln = line.len();
            assert(i < ln);
            let head = slice_range(line, 0, i);
            assert(head@ =~= line@.take(i as int));
            let num = trim_chars(head.as_slice());
            match parse_unsigned_exec(num.as_slice(), 0xffff_ffff) {
                None => None,
                Some(n) => {
                    let rest = slice_range(line, i + 1, ln);
                    assert(rest@ =~= line@.skip(i + 1));
                    if is_hot_irq_chars(rest.as_slice()) {
                        Some(n as u32)
                    } else {
                        None
                    }
                },
            }
        },
    }
}

/// The interrupts, read from the text of `/proc/interrupts`, whose
/// affinity goes to the big cores, in the order of their lines.
pub fn hot_irqs(interrupts: &str) -> (r: Vec<u32>)
    ensures
        r@ == hot_irqs_in(lines_of(interrupts@)),
{
    let text = chars_of(interrupts);
    let ls = lines(text.as_slice());
    let ghost all = ls@.map_values(|v: Vec<char>| v@);
    let mut r: Vec<u32> = Vec::new();
    let mut k: usize = 0;
    while k < ls.len()
        invariant
            k <= ls@.len(),
            all == ls@.map_values(|v: Vec<char>| v@),
            all == lines_of(interrupts@),
            r@ == hot_irqs_in(all.take(k as int)),
        decreases ls@.len() - k,
    {
        let line = &ls[k];
        assert(all.take(k + 1).drop_last() =~= all.take(k as int));
        assert(all.take(k + 1).last() == line@);
        match hot_irq_of_line_exec(line.as_slice()) {
            Some(n) => r.push(n),
            None => {},
        }
        k = k + 1;
    }
    assert(all.take(k as int) =~= all);
    r
}

} // verus!
