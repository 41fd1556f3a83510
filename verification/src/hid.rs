//! USB HID keyboard and mouse reports: the keys-down state of the emulated
//! keyboard, the keyboard LED state the host reports back, and the byte
//! layout of each report written to the gadget devices.
use vstd::prelude::*;

verus! {

pub const KEYBOARD_LED_MASK_NUM_LOCK: u8 = 1;

pub const KEYBOARD_LED_MASK_CAPS_LOCK: u8 = 2;

pub const KEYBOARD_LED_MASK_SCROLL_LOCK: u8 = 4;

pub const KEYBOARD_LED_MASK_COMPOSE: u8 = 8;

pub const KEYBOARD_LED_MASK_KANA: u8 = 16;

/// The LED bits a host may set; any other bit marks a report as invalid.
pub const KEYBOARD_LED_VALID_MASKS: u8 = 31;

/// Number of key slots in a boot-protocol keyboard report.
pub const HID_KEY_BUFFER_SIZE: usize = 6;

/// Device index of the keyboard gadget.
pub const HID_DEV_KEYBOARD: usize = 0;

/// Device index of the absolute pointer gadget.
pub const HID_DEV_ABS_MOUSE: usize = 1;

/// Device index of the relative mouse gadget.
pub const HID_DEV_REL_MOUSE: usize = 2;

/// Key code that fills every slot when more keys are down than fit
/// (the "phantom" roll-over state).
pub const HID_ROLLOVER_KEY: u8 = 1;

/// The keyboard LEDs as the host last reported them.
#[derive(Debug, Clone, Copy, PartialEq, Eq, Structural)]
pub struct KeyboardState {
    pub num_lock: bool,
    pub caps_lock: bool,
    pub scroll_lock: bool,
    pub compose: bool,
    pub kana: bool,
}

impl Default for KeyboardState {
    fn default() -> (s: Self)
        ensures
            !s.num_lock && !s.caps_lock && !s.scroll_lock && !s.compose && !s.kana,
    {
        KeyboardState {
            num_lock: false,
            caps_lock: false,
            scroll_lock: false,
            compose: false,
            kana: false,
        }
    }
}

/// The keys held down on the emulated keyboard: a modifier bit mask and
/// six key slots, filled from the front.
#[derive(Debug, Clone, Copy, PartialEq, Eq)]
pub struct KeysDownState {
    pub modifier: u8,
    pub keys: [u8; 6],
}

impl Default for KeysDownState {
    fn default() -> (s: Self)
        ensures
            s.modifier == 0,
            s.keys@ == seq![0u8, 0u8, 0u8, 0u8, 0u8, 0u8],
    {
        let s = KeysDownState { modifier: 0, keys: [0u8, 0u8, 0u8, 0u8, 0u8, 0u8] };
        assert(s.keys@ =~= seq![0u8, 0u8, 0u8, 0u8, 0u8, 0u8]);
        s
    }
}

// ---------------------------------------------------------------------------
// Specifications
// ---------------------------------------------------------------------------
/// Whether `key` is one of the eight modifier usages (0xE0..=0xE7).
pub open spec fn is_modifier_key(key: u8) -> bool {
    0xE0 <= key && key <= 0xE7
}

/// The modifier bit of a modifier key: Left Ctrl is bit 0, ..., Right GUI
/// is bit 7.
pub open spec fn modifier_bit(key: u8) -> u8
    recommends
        is_modifier_key(key),
{
    (1u8 << ((key - 0xE0) as u8)) as u8
}

/// The first slot at or after `i` that holds `key` or is free.
pub open spec fn slot_from(keys: Seq<u8>, key: u8, i: int) -> Option<int>
    decreases keys.len() - i,
{
    if i < 0 || i >= keys.len() {
        None
    } else if keys[i] == key || keys[i] == 0 {
        Some(i)
    } else {
        slot_from(keys, key, i + 1)
    }
}

/// The first slot that holds `key` or is free.
pub open spec fn key_slot(keys: Seq<u8>, key: u8) -> Option<int> {
    slot_from(keys, key, 0)
}

/// The slots after a press of the non-modifier key `key`.
pub open spec fn pressed_keys(keys: Seq<u8>, key: u8) -> Seq<u8> {
    match key_slot(keys, key) {
        Some(i) => keys.update(i, key),
        None => Seq::new(keys.len(), |j: int| HID_ROLLOVER_KEY),
    }
}

/// The slots after a release of the non-modifier key `key`: the key's slot
/// is removed and the later slots move up, leaving a free slot at the end.
pub open spec fn released_keys(keys: Seq<u8>, key: u8) -> Seq<u8> {
    match key_slot(keys, key) {
        Some(i) => if keys[i] != 0 {
            keys.subrange(0, i) + keys.subrange(i + 1, keys.len() as int) + seq![0u8]
        } else {
            keys
        },
        None => keys,
    }
}

/// The keys-down state after a key event, as (modifier, slots).
pub open spec fn keypress_result(modifier: u8, keys: Seq<u8>, key: u8, press: bool) -> (
    u8,
    Seq<u8>,
) {
    if is_modifier_key(key) {
        if press {
            ((modifier | modifier_bit(key)) as u8, keys)
        } else {
            ((modifier & !modifier_bit(key)) as u8, keys)
        }
    } else if key == 0 {
        (modifier, keys)
    } else if press {
        (modifier, pressed_keys(keys, key))
    } else {
        (modifier, released_keys(keys, key))
    }
}

/// Free slots only ever follow used ones.
pub open spec fn keys_packed(keys: Seq<u8>) -> bool {
    forall|i: int, j: int|
        0 <= i < j < keys.len() && #[trigger] keys[i] == 0 ==> #[trigger] keys[j] == 0
}

/// No used slot holds the same key as another.
pub open spec fn keys_distinct(keys: Seq<u8>) -> bool {
    forall|i: int, j: int|
        0 <= i < j < keys.len() && keys[i] != 0 ==> #[trigger] keys[i] != #[trigger] keys[j]
}

/// Every slot holds the roll-over code.
pub open spec fn rolled_over(keys: Seq<u8>) -> bool {
    keys == Seq::new(6, |j: int| HID_ROLLOVER_KEY)
}

/// The shape the six key slots keep: either all hold the roll-over code,
/// or the used slots come first and no key is held twice.
pub open spec fn keys_well_formed(keys: Seq<u8>) -> bool {
    rolled_over(keys) || (keys.len() == 6 && keys_packed(keys) && keys_distinct(keys))
}

/// The LED state a host report byte stands for.
pub open spec fn led_state_of(byte: u8) -> KeyboardState {
    KeyboardState {
        num_lock: byte & 1 != 0,
        caps_lock: byte & 2 != 0,
        scroll_lock: byte & 4 != 0,
        compose: byte & 8 != 0,
        kana: byte & 16 != 0,
    }
}

/// A report byte uses only the defined LED bits.
pub open spec fn led_byte_valid(byte: u8) -> bool {
    byte & !31u8 == 0
}

/// The key slots of a report built from a caller's key list: its first six
/// entries, padded with free slots.
pub open spec fn report_slots(keys: Seq<u8>) -> Seq<u8> {
    Seq::new(6, |i: int| if i < keys.len() { keys[i] } else { 0u8 })
}

/// The low byte of the 16-bit two's-complement form of `v`.
pub open spec fn low_byte16(v: i32) -> u8 {
    ((v as u16) % 256) as u8
}

/// The high byte of the 16-bit two's-complement form of `v`.
pub open spec fn high_byte16(v: i32) -> u8 {
    ((v as u16) / 256) as u8
}

// ---------------------------------------------------------------------------
// Keys-down state
// ---------------------------------------------------------------------------
/// The modifier bit of `key`, or `None` when it is no modifier key.
pub fn modifier_mask(key: u8) -> (r: Option<u8>)
    ensures
        is_modifier_key(key) ==> r == Some(modifier_bit(key)),
        !is_modifier_key(key) ==> r is None,
{
    if 0xE0 <= key && key <= 0xE7 {
        Some(1u8 << (key - 0xE0))
    } else {
        None
    }
}

fn find_key_slot(keys: &[u8; 6], key: u8) -> (r: Option<usize>)
    ensures
        match r {
            Some(i) => i < 6 && key_slot(keys@, key) == Some(i as int),
            None => key_slot(keys@, key) is None,
        },
{
    let mut i: usize = 0;
    while i < 6
        invariant
            i <= 6,
            keys@.len() == 6,
            key_slot(keys@, key) == slot_from(keys@, key, i as int),
        decreases 6 - i,
    {
        if keys[i] == key || keys[i] == 0 {
            return Some(i);
        }
        i = i + 1;
    }
    None
}

/// Applies one key event to the keys-down state: a modifier key sets or
/// clears its bit; another key takes the first slot that holds it or is
/// free on press (or fills every slot with the roll-over code when none is
/// left), and gives up its slot on release.
pub fn apply_keypress(state: &mut KeysDownState, key: u8, press: bool)
    ensures
        (final(state).modifier, final(state).keys@) == keypress_result(
            old(state).modifier,
            old(state).keys@,
            key,
            press,
        ),
{
    if let Some(mask) = modifier_mask(key) {
        if press {
            state.modifier = state.modifier | mask;
        } else {
            state.modifier = state.modifier & !mask;
        }
        return ;
    }
    if key == 0 {
        return ;
    }
    let target = find_key_slot(&state.keys, key);
    match target {
        Some(i) => {
            if press {
                state.keys[i] = key;
                assert(state.keys@ =~= pressed_keys(old(state).keys@, key));
            } else if state.keys[i] != 0 {
                let ghost before = state.keys@;
                let mut j = i;
                while j < 5
                    invariant
                        i <= j <= 5,
                        state.modifier == old(state).modifier,
                        forall|t: int| 0 <= t < i ==> state.keys@[t] == before[t],
                        forall|t: int| i <= t < j ==> state.keys@[t] == before[t + 1],
                        forall|t: int| j <= t < 6 ==> state.keys@[t] == before[t],
                    decreases 5 - j,
                {
                    state.keys[j] = state.keys[j + 1];
                    j = j + 1;
                }
                state.keys[5] = 0;
                assert(state.keys@ =~= before.subrange(0, i as int) + before.subrange(
                    i + 1,
                    6,
                ) + seq![0u8]);
            }
        },
        None => {
            if press {
                state.keys = [1u8, 1u8, 1u8, 1u8, 1u8, 1u8];
                assert(state.keys@ =~= Seq::new(6, |j: int| HID_ROLLOVER_KEY));
            }
        },
    }
}

impl KeysDownState {
    /// Replaces the state with a full keyboard report: the modifier byte and
    /// the first six keys given, the remaining slots free.
    pub fn set_report(&mut self, modifier: u8, keys: &[u8])
        ensures
            final(self).modifier == modifier,
            final(self).keys@ == report_slots(keys@),
    {
        self.modifier = modifier;
        self.keys = [0u8, 0u8, 0u8, 0u8, 0u8, 0u8];
        let mut i: usize = 0;
        while i < 6 && i < keys.len()
            invariant
                i <= 6,
                i <= keys@.len(),
                self.modifier == modifier,
                forall|t: int| 0 <= t < i ==> self.keys@[t] == keys@[t],
                forall|t: int| i <= t < 6 ==> self.keys@[t] == 0,
            decreases 6 - i,
        {
            self.keys[i] = keys[i];
            i = i + 1;
        }
        assert(self.keys@ =~= report_slots(keys@));
    }

    /// Applies one key event (see [`apply_keypress`]).
    pub fn keypress(&mut self, key: u8, press: bool)
        ensures
            (final(self).modifier, final(self).keys@) == keypress_result(
                old(self).modifier,
                old(self).keys@,
                key,
                press,
            ),
    {
        apply_keypress(self, key, press);
    }
}

// ---------------------------------------------------------------------------
// Keyboard LEDs
// ---------------------------------------------------------------------------
/// The LED state that a report byte from the host stands for.
pub fn parse_keyboard_state(byte: u8) -> (s: KeyboardState)
    ensures
        s == led_state_of(byte),
{
    KeyboardState {
        num_lock: byte & KEYBOARD_LED_MASK_NUM_LOCK != 0,
        caps_lock: byte & KEYBOARD_LED_MASK_CAPS_LOCK != 0,
        scroll_lock: byte & KEYBOARD_LED_MASK_SCROLL_LOCK != 0,
        compose: byte & KEYBOARD_LED_MASK_COMPOSE != 0,
        kana: byte & KEYBOARD_LED_MASK_KANA != 0,
    }
}

/// What a read from the keyboard device does to the LED state: a read of
/// exactly one byte that uses only LED bits and differs from `current`
/// gives the new state; every other read changes nothing.
pub fn led_report_update(current: KeyboardState, read: &[u8]) -> (r: Option<KeyboardState>)
    ensures
        r == (if read@.len() == 1 && led_byte_valid(read@[0]) && led_state_of(read@[0])
            != current {
            Some(led_state_of(read@[0]))
        } else {
            None
        }),
{
    if read.len() != 1 {
        return None;
    }
    let b = read[0];
    if b & !KEYBOARD_LED_VALID_MASKS != 0 {
        return None;
    }
    let new_state = parse_keyboard_state(b);
    if new_state == current {
        None
    } else {
        Some(new_state)
    }
}

// ---------------------------------------------------------------------------
// Report layouts
// ---------------------------------------------------------------------------
/// The 8-byte keyboard report: modifier, a reserved zero byte, then the
/// first six keys given, the rest zero.
pub fn keyboard_report_bytes(modifier: u8, keys: &[u8]) -> (r: [u8; 8])
    ensures
        r@ == seq![modifier, 0u8] + report_slots(keys@),
{
    let mut report = [0u8, 0u8, 0u8, 0u8, 0u8, 0u8, 0u8, 0u8];
    report[0] = modifier;
    let mut i: usize = 0;
    while i < 6 && i < keys.len()
        invariant
            i <= 6,
            i <= keys@.len(),
            report@[0] == modifier,
            report@[1] == 0,
            forall|k: int| 2 <= k < 2 + i ==> report@[k] == keys@[k - 2],
            forall|k: int| 2 + i <= k < 8 ==> report@[k] == 0,
        decreases 6 - i,
    {
        report[2 + i] = keys[i];
        i = i + 1;
    }
    assert(report@ =~= seq![modifier, 0u8] + report_slots(keys@));
    report
}

proof fn lemma_u16_bytes(u: u16)
    ensures
        (u & 0xff) as u8 == (u % 256) as u8,
        ((u >> 8u16) & 0xff) as u8 == (u / 256) as u8,
{
    assert(u & 0xff == u % 256) by (bit_vector);
    assert((u >> 8u16) & 0xff == u / 256) by (bit_vector);
}

/// The 6-byte absolute pointer report: report id 1, buttons, then x and y
/// as 16-bit little-endian values.
pub fn abs_mouse_report_bytes(x: i32, y: i32, buttons: u8) -> (r: [u8; 6])
    ensures
        r@ == seq![
            1u8,
            buttons,
            low_byte16(x),
            high_byte16(x),
            low_byte16(y),
            high_byte16(y),
        ],
{
    proof {
        lemma_u16_bytes(x as u16);
        lemma_u16_bytes(y as u16);
    }
    let data = [
        1u8,
        buttons,
        (x as u16 & 0x00FF) as u8,
        ((x as u16 >> 8u16) & 0x00FF) as u8,
        (y as u16 & 0x00FF) as u8,
        ((y as u16 >> 8u16) & 0x00FF) as u8,
    ];
    assert(data@ =~= seq![
        1u8,
        buttons,
        low_byte16(x),
        high_byte16(x),
        low_byte16(y),
        high_byte16(y),
    ]);
    data
}

/// The 2-byte wheel report on the absolute pointer device (report id 2),
/// or `None` when the wheel did not move.
pub fn abs_wheel_report_bytes(wheel_y: i8) -> (r: Option<[u8; 2]>)
    ensures
        wheel_y == 0 ==> r is None,
        wheel_y != 0 ==> r is Some && r->0@ == seq![2u8, wheel_y as u8],
{
    if wheel_y == 0 {
        return None;
    }
    let data = [2u8, wheel_y as u8];
    assert(data@ =~= seq![2u8, wheel_y as u8]);
    Some(data)
}

/// The 4-byte relative mouse report: buttons, dx, dy, and a zero wheel.
pub fn rel_mouse_report_bytes(dx: i8, dy: i8, buttons: u8) -> (r: [u8; 4])
    ensures
        r@ == seq![buttons, dx as u8, dy as u8, 0u8],
{
    let data = [buttons, dx as u8, dy as u8, 0u8];
    assert(data@ =~= seq![buttons, dx as u8, dy as u8, 0u8]);
    data
}

/// One report queued for the gadget writer.
pub enum HidWriteCmd {
    Keyboard([u8; 8]),
    AbsMouse([u8; 6]),
    AbsWheel([u8; 2]),
    RelMouse([u8; 4]),
}

impl HidWriteCmd {
    /// The device the report goes to and its bytes.
    pub fn device_and_payload(&self) -> (r: (usize, &[u8]))
        ensures
            match self {
                HidWriteCmd::Keyboard(b) => r.0 == HID_DEV_KEYBOARD && r.1@ == b@,
                HidWriteCmd::AbsMouse(b) => r.0 == HID_DEV_ABS_MOUSE && r.1@ == b@,
                HidWriteCmd::AbsWheel(b) => r.0 == HID_DEV_ABS_MOUSE && r.1@ == b@,
                HidWriteCmd::RelMouse(b) => r.0 == HID_DEV_REL_MOUSE && r.1@ == b@,
            },
    {
        match self {
            HidWriteCmd::Keyboard(b) => (HID_DEV_KEYBOARD, b.as_slice()),
            HidWriteCmd::AbsMouse(b) => (HID_DEV_ABS_MOUSE, b.as_slice()),
            HidWriteCmd::AbsWheel(b) => (HID_DEV_ABS_MOUSE, b.as_slice()),
            HidWriteCmd::RelMouse(b) => (HID_DEV_REL_MOUSE, b.as_slice()),
        }
    }
}

/// How long the writer waits for the host to take a report, in ms.
pub const HID_WRITE_TIMEOUT_MS: u64 = 100;

/// The least time between two warnings about dropped reports, in ms.
pub const HID_WARN_INTERVAL_MS: u64 = 5000;

/// The depth of the report queue.
pub const HID_WRITE_QUEUE_DEPTH: usize = 64;

/// What one write of a report to the gadget gave.
#[derive(Debug, Clone, Copy, PartialEq, Eq, Structural)]
pub enum WriteOutcome {
    /// This many bytes were written.
    Wrote(usize),
    /// The device is not ready to take the report.
    WouldBlock,
    /// The write was interrupted by a signal.
    Interrupted,
    /// Any other error.
    Failed,
}

/// What the writer does next with a report.
#[derive(Debug, Clone, Copy, PartialEq, Eq, Structural)]
pub enum WriteStep {
    /// The report is written.
    Done,
    /// Only part of it was written: an error.
    Short,
    /// Wait until the device can take it, at most this many ms, and try
    /// again.
    WaitWritable(u64),
    /// Try again at once.
    Retry,
    /// The host did not take it in time: an error.
    TimedOut,
    /// An error.
    Error,
}

/// The next step after a write of a report of `len` bytes, with
/// `remaining_ms` left before the deadline: a full write is done, a short
/// one an error; a device not ready is waited for while time is left; an
/// interrupted write is tried again; any other error stands.
pub fn write_step(outcome: WriteOutcome, len: usize, remaining_ms: u64) -> (r: WriteStep)
    ensures
        r == (match outcome {
            WriteOutcome::Wrote(n) => if n == len {
                WriteStep::Done
            } else {
                WriteStep::Short
            },
            WriteOutcome::WouldBlock => if remaining_ms == 0 {
                WriteStep::TimedOut
            } else {
                WriteStep::WaitWritable(remaining_ms)
            },
            WriteOutcome::Interrupted => WriteStep::Retry,
            WriteOutcome::Failed => WriteStep::Error,
        }),
{
    match outcome {
        WriteOutcome::Wrote(n) => if n == len {
            WriteStep::Done
        } else {
            WriteStep::Short
        },
        WriteOutcome::WouldBlock => if remaining_ms == 0 {
            WriteStep::TimedOut
        } else {
            WriteStep::WaitWritable(remaining_ms)
        },
        WriteOutcome::Interrupted => WriteStep::Retry,
        WriteOutcome::Failed => WriteStep::Error,
    }
}

/// What waiting for the device gave: ready (or interrupted, which counts as
/// ready and is checked against the deadline again), or not in time.
pub fn after_wait(ready: bool) -> (r: WriteStep)
    ensures
        ready ==> r == WriteStep::Retry,
        !ready ==> r == WriteStep::TimedOut,
{
    if ready {
        WriteStep::Retry
    } else {
        WriteStep::TimedOut
    }
}

/// Warnings about dropped reports, at most one per interval: when the last
/// one was given (ms) and how many reports were dropped since.
pub struct WarnLimiter {
    pub last_warn_ms: Option<u64>,
    pub suppressed: u64,
}

impl WarnLimiter {
    /// No warning given yet.
    pub fn new() -> (r: Self)
        ensures
            r.last_warn_ms is None,
            r.suppressed == 0,
    {
        WarnLimiter { last_warn_ms: None, suppressed: 0 }
    }

    /// A failed report, with `dropped` more reports thrown away, at
    /// `now_ms`: they are counted; when no warning was given in the last
    /// interval, the count is reported (and restarted).
    pub fn on_failure(&mut self, now_ms: u64, dropped: u64) -> (r: Option<u64>)
        requires
            old(self).suppressed + 1 + dropped <= u64::MAX,
        ensures
            ({
                let total = old(self).suppressed + 1 + dropped;
                let due = match old(self).last_warn_ms {
                    None => true,
                    Some(t) => now_ms >= t && now_ms - t >= HID_WARN_INTERVAL_MS,
                };
                &&& due ==> r == Some(total as u64) && final(self).suppressed == 0 && final(self).last_warn_ms
                    == Some(now_ms)
                &&& !due ==> r is None && final(self).suppressed == total && final(self).last_warn_ms == old(
                    self,
                ).last_warn_ms
            }),
    {
        self.suppressed = self.suppressed + 1 + dropped;
        let due = match self.last_warn_ms {
            None => true,
            Some(t) => now_ms >= t && now_ms - t >= HID_WARN_INTERVAL_MS,
        };
        if due {
            let n = self.suppressed;
            self.last_warn_ms = Some(now_ms);
            self.suppressed = 0;
            Some(n)
        } else {
            None
        }
    }

    /// A full queue at `now_ms`: whether to warn about it (at most once per
    /// interval).
    pub fn on_queue_full(&mut self, now_ms: u64) -> (r: bool)
        ensures
            r == (match old(self).last_warn_ms {
                None => true,
                Some(t) => now_ms >= t && now_ms - t >= HID_WARN_INTERVAL_MS,
            }),
            r ==> final(self).last_warn_ms == Some(now_ms),
            !r ==> final(self).last_warn_ms == old(self).last_warn_ms,
            final(self).suppressed == old(self).suppressed,
    {
        let due = match self.last_warn_ms {
            None => true,
            Some(t) => now_ms >= t && now_ms - t >= HID_WARN_INTERVAL_MS,
        };
        if due {
            self.last_warn_ms = Some(now_ms);
        }
        due
    }
}

// ---------------------------------------------------------------------------
// Laws
// ---------------------------------------------------------------------------
/// What the slot search finds: the first slot at or after `i` that holds
/// `key` or is free, and none before it.
pub proof fn lemma_slot_from(keys: Seq<u8>, key: u8, i: int)
    requires
        0 <= i,
    ensures
        match slot_from(keys, key, i) {
            Some(j) => i <= j < keys.len() && (keys[j] == key || keys[j] == 0) && forall|t: int|
                i <= t < j ==> keys[t] != key && keys[t] != 0,
            None => forall|t: int| i <= t < keys.len() ==> keys[t] != key && keys[t] != 0,
        },
    decreases keys.len() - i,
{
    if i < keys.len() && !(keys[i] == key || keys[i] == 0) {
        lemma_slot_from(keys, key, i + 1);
    }
}

/// Two slot sequences that agree before slot `j`, where the search in the
/// first stops, give the same search result when slot `j` of the second
/// holds the key or is free.
proof fn lemma_slot_same_prefix(a: Seq<u8>, b: Seq<u8>, key: u8, j: int)
    requires
        0 <= j < a.len(),
        a.len() == b.len(),
        forall|t: int| 0 <= t < j ==> a[t] == b[t],
        b[j] == key || b[j] == 0,
        key_slot(a, key) == Some(j),
    ensures
        key_slot(b, key) == Some(j),
{
    lemma_slot_from(a, key, 0);
    lemma_slot_from(b, key, 0);
    match key_slot(b, key) {
        Some(k) => {
            if k < j {
                assert(b[k] == a[k]);
            }
        },
        None => {},
    }
}

/// Pressing a key that is not down and then releasing it gives back the
/// keys-down state from before, when the slots are filled from the front
/// without repeats and one is free.
pub proof fn lemma_press_release_roundtrip(modifier: u8, keys: Seq<u8>, key: u8)
    requires
        keys.len() == 6,
        keys_packed(keys),
        keys_distinct(keys),
        !is_modifier_key(key),
        key != 0,
        !keys.contains(key),
        keys.contains(0u8),
    ensures
        ({
            let (m1, k1) = keypress_result(modifier, keys, key, true);
            keypress_result(m1, k1, key, false)
        }) == (modifier, keys),
{
    lemma_slot_from(keys, key, 0);
    let z = choose|t: int| 0 <= t < keys.len() && keys[t] == 0u8;
    match key_slot(keys, key) {
        Some(i) => {
            assert(keys[i] != key);
            assert(keys[i] == 0);
            let p = keys.update(i, key);
            assert(pressed_keys(keys, key) == p);
            lemma_slot_from(p, key, 0);
            match key_slot(p, key) {
                Some(j) => {
                    if j < i {
                        assert(p[j] == keys[j]);
                    } else if j > i {
                        assert(p[i] == key);
                    }
                    assert(j == i);
                },
                None => {
                    assert(p[i] == key);
                },
            }
            let r = p.subrange(0, i) + p.subrange(i + 1, 6) + seq![0u8];
            assert(released_keys(p, key) == r);
            assert forall|t: int| 0 <= t < 6 implies r[t] == keys[t] by {
                if t < i {
                } else if t < 5 {
                    assert(keys[t + 1] == 0);
                    assert(keys[t] == 0);
                } else {
                    assert(keys[5] == 0);
                }
            }
            assert(r =~= keys);
        },
        None => {
            assert(keys[z] == 0);
        },
    }
}

/// Pressing a key that is already down changes nothing.
pub proof fn lemma_press_idempotent(modifier: u8, keys: Seq<u8>, key: u8)
    ensures
        ({
            let (m1, k1) = keypress_result(modifier, keys, key, true);
            keypress_result(m1, k1, key, true)
        }) == keypress_result(modifier, keys, key, true),
{
    if is_modifier_key(key) {
        let b = modifier_bit(key);
        assert(((modifier | b) as u8 | b) as u8 == (modifier | b) as u8) by (bit_vector);
    } else if key != 0 {
        lemma_slot_from(keys, key, 0);
        match key_slot(keys, key) {
            Some(i) => {
                let p = keys.update(i, key);
                lemma_slot_same_prefix(keys, p, key, i);
                assert(p.update(i, key) =~= p);
            },
            None => {
                let p = Seq::new(keys.len(), |j: int| HID_ROLLOVER_KEY);
                lemma_slot_from(p, key, 0);
                match key_slot(p, key) {
                    Some(i) => {
                        assert(p[i] == key);
                        assert(p.update(i, key) =~= p);
                    },
                    None => {
                        assert(Seq::new(p.len(), |j: int| HID_ROLLOVER_KEY) =~= p);
                    },
                }
            },
        }
    }
}

/// Releasing a key that is not down changes nothing.
pub proof fn lemma_release_absent(modifier: u8, keys: Seq<u8>, key: u8)
    requires
        !is_modifier_key(key),
        !keys.contains(key),
    ensures
        keypress_result(modifier, keys, key, false) == (modifier, keys),
{
    lemma_slot_from(keys, key, 0);
    match key_slot(keys, key) {
        Some(i) => {
            if keys[i] != 0 {
                assert(keys[i] == key);
                assert(keys.contains(key));
            }
        },
        None => {},
    }
}

/// Every key event keeps the used slots at the front.
pub proof fn lemma_keypress_keeps_packed(modifier: u8, keys: Seq<u8>, key: u8, press: bool)
    requires
        keys.len() == 6,
        keys_packed(keys),
    ensures
        keys_packed(keypress_result(modifier, keys, key, press).1),
{
    if !is_modifier_key(key) && key != 0 {
        lemma_slot_from(keys, key, 0);
        let r = keypress_result(modifier, keys, key, press).1;
        match key_slot(keys, key) {
            Some(i) => {
                if press {
                    assert forall|a: int, b: int|
                        0 <= a < b < r.len() && #[trigger] r[a] == 0 implies #[trigger] r[b]
                        == 0 by {
                        if a < i {
                            assert(keys[a] != 0);
                        } else if a == i {
                        } else {
                            assert(keys[a] == 0);
                        }
                    }
                } else if keys[i] != 0 {
                    assert forall|a: int, b: int|
                        0 <= a < b < r.len() && #[trigger] r[a] == 0 implies #[trigger] r[b]
                        == 0 by {
                        if a < i {
                            assert(keys[a] != 0);
                        } else if b < 5 {
                            assert(r[a] == keys[a + 1]);
                            assert(r[b] == keys[b + 1]);
                        }
                    }
                }
            },
            None => {},
        }
    }
}

/// After a release the key is no longer down, when the slots are filled
/// from the front without repeats.
pub proof fn lemma_release_removes(modifier: u8, keys: Seq<u8>, key: u8)
    requires
        keys.len() == 6,
        keys_packed(keys),
        keys_distinct(keys),
        !is_modifier_key(key),
        key != 0,
    ensures
        !keypress_result(modifier, keys, key, false).1.contains(key),
{
    lemma_slot_from(keys, key, 0);
    let r = keypress_result(modifier, keys, key, false).1;
    match key_slot(keys, key) {
        Some(i) => {
            if keys[i] != 0 {
                assert forall|t: int| 0 <= t < r.len() implies r[t] != key by {
                    if t < i {
                    } else if t < 5 {
                        assert(r[t] == keys[t + 1]);
                        assert(keys[i] != keys[t + 1]);
                    }
                }
            } else {
                assert forall|t: int| 0 <= t < r.len() implies r[t] != key by {
                    if t > i {
                        assert(keys[t] == 0);
                    }
                }
            }
        },
        None => {},
    }
}

/// After a press the key is down, unless every slot now holds the
/// roll-over code.
pub proof fn lemma_press_holds_key(modifier: u8, keys: Seq<u8>, key: u8)
    requires
        !is_modifier_key(key),
        key != 0,
    ensures
        keypress_result(modifier, keys, key, true).1.contains(key) || keypress_result(
            modifier,
            keys,
            key,
            true,
        ).1 == Seq::new(keys.len(), |j: int| HID_ROLLOVER_KEY),
{
    lemma_slot_from(keys, key, 0);
    match key_slot(keys, key) {
        Some(i) => {
            assert(keys.update(i, key)[i] == key);
        },
        None => {},
    }
}

/// Modifier keys only touch their own bit: press then release clears it
/// and leaves the other bits and the key slots as they were.
pub proof fn lemma_modifier_press_release(modifier: u8, keys: Seq<u8>, key: u8)
    requires
        is_modifier_key(key),
    ensures
        ({
            let (m1, k1) = keypress_result(modifier, keys, key, true);
            keypress_result(m1, k1, key, false)
        }) == ((modifier & !modifier_bit(key)) as u8, keys),
{
    let b = modifier_bit(key);
    assert(((modifier | b) as u8 & !b) as u8 == (modifier & !b) as u8) by (bit_vector);
}

/// Every key event keeps held keys distinct, when the used slots come
/// first.
proof fn lemma_keypress_keeps_distinct(modifier: u8, keys: Seq<u8>, key: u8, press: bool)
    requires
        keys.len() == 6,
        keys_packed(keys),
        keys_distinct(keys),
    ensures
        keys_distinct(keypress_result(modifier, keys, key, press).1)
            || rolled_over(keypress_result(modifier, keys, key, press).1),
{
    if !is_modifier_key(key) && key != 0 {
        lemma_slot_from(keys, key, 0);
        let r = keypress_result(modifier, keys, key, press).1;
        match key_slot(keys, key) {
            Some(i) => {
                if press {
                    assert forall|a: int, b: int|
                        0 <= a < b < r.len() && r[a] != 0 implies #[trigger] r[a] != #[trigger] r[b] by {
                        if a == i {
                            if keys[i] == 0 {
                                assert(keys[b] == 0);
                            }
                        } else if b == i {
                            assert(keys[a] != key);
                        }
                    }
                } else if keys[i] != 0 {
                    assert forall|a: int, b: int|
                        0 <= a < b < r.len() && r[a] != 0 implies #[trigger] r[a] != #[trigger] r[b] by {
                        let a1 = if a < i { a } else { a + 1 };
                        if b < 5 {
                            let b1 = if b < i { b } else { b + 1 };
                            assert(r[a] == keys[a1]);
                            assert(r[b] == keys[b1]);
                        }
                    }
                }
            },
            None => {
                if press {
                    assert(r =~= Seq::new(6, |j: int| HID_ROLLOVER_KEY));
                }
            },
        }
    }
}

/// The key slots keep their shape across every key event but one that
/// names the roll-over code itself: a modifier key only sets (press) or
/// clears (release) its own bit and leaves the slots; any other key leaves
/// the modifier byte, and a pressed key is then held (unless every slot
/// holds the roll-over code) while a released key is no longer held.
pub proof fn lemma_keypress_keeps_keys_well_formed(modifier: u8, keys: Seq<u8>, key: u8, press: bool)
    requires
        keys_well_formed(keys),
        key != HID_ROLLOVER_KEY,
    ensures
        keys_well_formed(keypress_result(modifier, keys, key, press).1),
        is_modifier_key(key) ==> keypress_result(modifier, keys, key, press) == (
            if press {
                (modifier | modifier_bit(key)) as u8
            } else {
                (modifier & !modifier_bit(key)) as u8
            },
            keys,
        ),
        !is_modifier_key(key) ==> keypress_result(modifier, keys, key, press).0 == modifier,
        !is_modifier_key(key) && key != 0 && press ==> keypress_result(modifier, keys, key, press).1.contains(
            key,
        ) || rolled_over(keypress_result(modifier, keys, key, press).1),
        !is_modifier_key(key) && key != 0 && !press ==> !keypress_result(
            modifier,
            keys,
            key,
            press,
        ).1.contains(key),
{
    let r = keypress_result(modifier, keys, key, press).1;
    if rolled_over(keys) {
        if !is_modifier_key(key) && key != 0 {
            lemma_slot_from(keys, key, 0);
            assert(key_slot(keys, key) is None) by {
                match key_slot(keys, key) {
                    Some(i) => {
                        assert(keys[i] == HID_ROLLOVER_KEY);
                    },
                    None => {},
                }
            }
            if press {
                assert(r =~= Seq::new(6, |j: int| HID_ROLLOVER_KEY));
            } else {
                assert(r == keys);
                assert forall|t: int| 0 <= t < r.len() implies r[t] != key by {
                    assert(r[t] == HID_ROLLOVER_KEY);
                }
            }
        }
    } else {
        lemma_keypress_keeps_packed(modifier, keys, key, press);
        lemma_keypress_keeps_distinct(modifier, keys, key, press);
        if !is_modifier_key(key) && key != 0 {
            if press {
                lemma_press_holds_key(modifier, keys, key);
            } else {
                lemma_release_removes(modifier, keys, key);
            }
        }
        if !rolled_over(r) {
            assert(r.len() == 6) by {
                lemma_slot_from(keys, key, 0);
            }
        }
    }
}

/// Two valid LED report bytes stand for the same LED state only when they
/// are the same byte.
pub proof fn lemma_led_state_injective(a: u8, b: u8)
    requires
        led_byte_valid(a),
        led_byte_valid(b),
        led_state_of(a) == led_state_of(b),
    ensures
        a == b,
{
    assert(a & !31u8 == 0 && b & !31u8 == 0 && (a & 1 != 0) == (b & 1 != 0) && (a & 2 != 0) == (b
        & 2 != 0) && (a & 4 != 0) == (b & 4 != 0) && (a & 8 != 0) == (b & 8 != 0) && (a & 16
        != 0) == (b & 16 != 0) ==> a == b) by (bit_vector);
}

/// A report built from the six slots of a keys-down state carries exactly
/// those slots.
pub proof fn lemma_report_of_state(keys: Seq<u8>)
    requires
        keys.len() == 6,
    ensures
        report_slots(keys) == keys,
{
    assert(report_slots(keys) =~= keys);
}

} // verus!
