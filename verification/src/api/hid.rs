//! Keyboard and mouse methods: the reports a client sends, the keys held
//! down, and the keyboard layout.
use vstd::prelude::*;
use crate::config::{macro_check, KeyboardMacro, KeyboardMacroStep, MacroError, MacroView, StepView, MAX_MACROS_PER_DEVICE};
use crate::discovery::texts;
use crate::hid::KeysDownState;
use crate::text::{owned, same_text};

verus! {

/// A keyboard report: modifier byte and key codes.
pub struct KeyboardReportParams {
    pub modifier: u8,
    pub keys: Vec<u8>,
}

/// An absolute pointer report.
pub struct AbsMouseReportParams {
    pub x: i32,
    pub y: i32,
    pub buttons: u8,
}

/// A relative mouse report.
pub struct RelMouseReportParams {
    pub dx: i8,
    pub dy: i8,
    pub buttons: u8,
}

/// A wheel report.
pub struct WheelReportParams {
    pub wheel_y: i8,
}

/// A single key pressed or released.
pub struct KeypressReportParams {
    pub key: u8,
    pub press: bool,
}

/// The modifiers and keys held down.
pub struct KeyDownStateResponse {
    pub modifier: u8,
    pub keys: Vec<u8>,
}

/// The keys held down: those of the keyboard when there is one, otherwise
/// none (six empty slots).
pub fn get_key_down_state(state: Option<&KeysDownState>) -> (r: KeyDownStateResponse)
    ensures
        match state {
            Some(s) => r.modifier == s.modifier && r.keys@ == s.keys@,
            None => r.modifier == 0 && r.keys@ == seq![0u8, 0u8, 0u8, 0u8, 0u8, 0u8],
        },
{
    match state {
        Some(s) => {
            let mut keys: Vec<u8> = Vec::new();
            let mut i: usize = 0;
            while i < 6
                invariant
                    i <= 6,
                    keys@ == s.keys@.subrange(0, i as int),
                decreases 6 - i,
            {
                keys.push(s.keys[i]);
                assert(keys@ =~= s.keys@.subrange(0, i + 1));
                i = i + 1;
            }
            assert(s.keys@.subrange(0, 6) =~= s.keys@);
            KeyDownStateResponse { modifier: s.modifier, keys }
        },
        None => {
            let keys = vec![0u8, 0u8, 0u8, 0u8, 0u8, 0u8];
            assert(keys@ =~= seq![0u8, 0u8, 0u8, 0u8, 0u8, 0u8]);
            KeyDownStateResponse { modifier: 0, keys }
        },
    }
}

/// A keyboard layout by name.
pub struct KeyboardLayoutParams {
    pub layout: String,
}

/// The layouts accepted.
pub open spec fn layout_ok(l: Seq<char>) -> bool {
    l == "us"@ || l == "uk"@ || l == "de"@ || l == "fr"@ || l == "es"@ || l == "it"@ || l == "jp"@
        || l == "kr"@
}

/// The keyboard layout (`us` until one is set).
pub struct KeyboardLayout {
    pub layout: String,
}

impl KeyboardLayout {
    /// The layout at start.
    pub fn new() -> (r: Self)
        ensures
            r.layout@ == "us"@,
    {
        KeyboardLayout { layout: owned("us") }
    }

    /// The layout.
    pub fn get_keyboard_layout(&self) -> (r: String)
        ensures
            r@ == self.layout@,
    {
        owned(self.layout.as_str())
    }

    /// Sets the layout; one not supported is refused (its name is given
    /// back) and changes nothing.
    pub fn set_keyboard_layout(&mut self, params: &KeyboardLayoutParams) -> (r: Result<(), String>)
        ensures
            layout_ok(params.layout@) ==> r is Ok && final(self).layout@ == params.layout@,
            !layout_ok(params.layout@) ==> (r matches Err(s) && s@ == params.layout@) && final(self).layout@
                == old(self).layout@,
    {
        let l = params.layout.as_str();
        if same_text(l, "us") || same_text(l, "uk") || same_text(l, "de") || same_text(l, "fr") || same_text(l, "es")
            || same_text(l, "it") || same_text(l, "jp") || same_text(l, "kr") {
            self.layout = owned(l);
            Ok(())
        } else {
            Err(owned(l))
        }
    }
}


/// A step of a macro as the client sent it: an object with optional key
/// and modifier lists (whose items may be strings or not) and an optional
/// delay, or something that is not an object.
pub enum StepInput {
    NotObject,
    Object { keys: Option<Vec<Option<String>>>, modifiers: Option<Vec<Option<String>>>, delay: Option<u64> },
}

/// A macro as the client sent it. `fallback_id` is the id given to it when
/// it has none (made from the clock when the request arrives).
pub struct MacroInput {
    pub is_object: bool,
    pub id: Option<String>,
    pub fallback_id: String,
    pub name: Option<String>,
    pub sort_order: Option<u64>,
    pub steps: Option<Vec<StepInput>>,
}

/// Why a list of macros was refused.
#[derive(Debug, PartialEq, Eq)]
pub enum MacrosError {
    /// More macros than a device keeps.
    TooMany,
    /// The macro at this index is not an object.
    NotObject(usize),
    /// The macro at this index has an empty step list.
    EmptySteps(usize),
    /// The macro at this index fails its check.
    Invalid(usize, MacroError),
}

/// The strings of an optional list, in order; other items are left out.
pub open spec fn string_items(items: Seq<Option<String>>) -> Seq<Seq<char>>
    decreases items.len(),
{
    if items.len() == 0 {
        seq![]
    } else {
        string_items(items.drop_last()) + match items.last() {
            Some(s) => seq![s@],
            None => seq![],
        }
    }
}

/// The strings of an optional list (none without the list).
pub open spec fn list_strings(items: Option<Vec<Option<String>>>) -> Seq<Seq<char>> {
    match items {
        Some(v) => string_items(v@),
        None => seq![],
    }
}

/// The steps made from the client's steps: objects only, with their string
/// keys and modifiers and the delay cut to 32 bits (0 without one).
pub open spec fn steps_of(steps: Seq<StepInput>) -> Seq<StepView>
    decreases steps.len(),
{
    if steps.len() == 0 {
        seq![]
    } else {
        steps_of(steps.drop_last()) + match steps.last() {
            StepInput::NotObject => seq![],
            StepInput::Object { keys, modifiers, delay } => seq![
                StepView {
                    keys: list_strings(keys),
                    modifiers: list_strings(modifiers),
                    delay: match delay {
                        Some(d) => d as u32,
                        None => 0,
                    },
                },
            ],
        }
    }
}

/// The macro made from the client's macro at index `i`, before its check:
/// its id (or the fallback), its name (empty without one), its sort order
/// (the given one when it fits 32 bits, else `i + 1`) and its steps; an
/// empty step list is refused.
pub open spec fn macro_of(m: MacroInput, i: nat) -> Result<MacroView, MacrosError> {
    if !m.is_object {
        Err(MacrosError::NotObject(i as usize))
    } else if m.steps matches Some(v) && v@.len() == 0 {
        Err(MacrosError::EmptySteps(i as usize))
    } else {
        Ok(
            MacroView {
                id: match m.id {
                    Some(s) => s@,
                    None => m.fallback_id@,
                },
                name: match m.name {
                    Some(s) => s@,
                    None => seq![],
                },
                steps: match m.steps {
                    Some(v) => steps_of(v@),
                    None => seq![],
                },
                sort_order: Some(
                    match m.sort_order {
                        Some(n) => if n <= u32::MAX {
                            n as u32
                        } else {
                            (i + 1) as u32
                        },
                        None => (i + 1) as u32,
                    },
                ),
            },
        )
    }
}

/// The macros made from the client's list, each checked (and its delays
/// brought into range); the first that fails refuses the list.
pub open spec fn macros_of(ms: Seq<MacroInput>) -> Result<Seq<MacroView>, MacrosError>
    decreases ms.len(),
{
    if ms.len() == 0 {
        Ok(seq![])
    } else {
        match macros_of(ms.drop_last()) {
            Err(e) => Err(e),
            Ok(done) => {
                let i = (ms.len() - 1) as nat;
                match macro_of(ms.last(), i) {
                    Err(e) => Err(e),
                    Ok(m) => match macro_check(m).1 {
                        Err(e) => Err(MacrosError::Invalid(i as usize, e)),
                        Ok(_) => Ok(done.push(macro_check(m).0)),
                    },
                }
            },
        }
    }
}

fn strings_from(items: &Option<Vec<Option<String>>>) -> (r: Vec<String>)
    ensures
        texts(r@) == list_strings(*items),
{
    let mut r: Vec<String> = Vec::new();
    match items {
        Some(v) => {
            let mut i: usize = 0;
            while i < v.len()
                invariant
                    i <= v@.len(),
                    texts(r@) == string_items(v@.subrange(0, i as int)),
                decreases v@.len() - i,
            {
                assert(v@.subrange(0, i + 1).drop_last() =~= v@.subrange(0, i as int));
                match &v[i] {
                    Some(s) => {
                        let ghost prev = texts(r@);
                        r.push(owned(s.as_str()));
                        assert(texts(r@) =~= prev.push(s@));
                    },
                    None => {
                        assert(string_items(v@.subrange(0, i + 1)) =~= string_items(v@.subrange(0, i as int)));
                    },
                }
                i = i + 1;
            }
            assert(v@.subrange(0, v@.len() as int) =~= v@);
        },
        None => {
            assert(texts(r@) =~= Seq::<Seq<char>>::empty());
        },
    }
    r
}

fn steps_from(steps: &Vec<StepInput>) -> (r: Vec<KeyboardMacroStep>)
    ensures
        crate::config::step_views(r@) == steps_of(steps@),
{
    let mut r: Vec<KeyboardMacroStep> = Vec::new();
    let mut i: usize = 0;
    while i < steps.len()
        invariant
            i <= steps@.len(),
            crate::config::step_views(r@) == steps_of(steps@.subrange(0, i as int)),
        decreases steps@.len() - i,
    {
        assert(steps@.subrange(0, i + 1).drop_last() =~= steps@.subrange(0, i as int));
        match &steps[i] {
            StepInput::NotObject => {
                assert(steps_of(steps@.subrange(0, i + 1)) =~= steps_of(steps@.subrange(0, i as int)));
            },
            StepInput::Object { keys, modifiers, delay } => {
                let st = KeyboardMacroStep {
                    keys: strings_from(keys),
                    modifiers: strings_from(modifiers),
                    delay: match delay {
                        Some(d) => *d as u32,
                        None => 0,
                    },
                };
                let ghost prev = crate::config::step_views(r@);
                let ghost sv = st@;
                r.push(st);
                assert(crate::config::step_views(r@) =~= prev.push(sv));
            },
        }
        i = i + 1;
    }
    assert(steps@.subrange(0, steps@.len() as int) =~= steps@);
    r
}

fn macro_from(m: &MacroInput, i: usize) -> (r: Result<KeyboardMacro, MacrosError>)
    requires
        i < 25,
    ensures
        match r {
            Ok(k) => macro_of(*m, i as nat) == Ok::<MacroView, MacrosError>(k@),
            Err(e) => macro_of(*m, i as nat) == Err::<MacroView, MacrosError>(e),
        },
{
    if !m.is_object {
        return Err(MacrosError::NotObject(i));
    }
    let steps = match &m.steps {
        Some(v) => {
            if v.len() == 0 {
                return Err(MacrosError::EmptySteps(i));
            }
            steps_from(v)
        },
        None => Vec::new(),
    };
    let sort: u32 = match m.sort_order {
        Some(n) => if n <= 0xffff_ffff {
            n as u32
        } else {
            (i + 1) as u32
        },
        None => (i + 1) as u32,
    };
    let k = KeyboardMacro {
        id: match &m.id {
            Some(s) => owned(s.as_str()),
            None => owned(m.fallback_id.as_str()),
        },
        name: match &m.name {
            Some(s) => owned(s.as_str()),
            None => String::new(),
        },
        steps,
        sort_order: Some(sort),
    };
    proof {
        if m.steps is None {
            assert(crate::config::step_views(k.steps@) =~= Seq::<StepView>::empty());
        }
    }
    Ok(k)
}

/// The macros a client's list gives: refused when it holds more than a
/// device keeps; otherwise each macro is made and checked in order.
pub fn set_keyboard_macros(inputs: &Vec<MacroInput>) -> (r: Result<Vec<KeyboardMacro>, MacrosError>)
    ensures
        inputs@.len() > MAX_MACROS_PER_DEVICE ==> r == Err::<Vec<KeyboardMacro>, MacrosError>(MacrosError::TooMany),
        inputs@.len() <= MAX_MACROS_PER_DEVICE ==> match r {
            Ok(v) => macros_of(inputs@) == Ok::<Seq<MacroView>, MacrosError>(crate::config::macro_views(v@)),
            Err(e) => macros_of(inputs@) == Err::<Seq<MacroView>, MacrosError>(e),
        },
{
    if inputs.len() > MAX_MACROS_PER_DEVICE {
        return Err(MacrosError::TooMany);
    }
    let mut out: Vec<KeyboardMacro> = Vec::new();
    let mut i: usize = 0;
    assert(inputs@.subrange(0, 0) =~= Seq::<MacroInput>::empty());
    assert(crate::config::macro_views(out@) =~= Seq::<MacroView>::empty());
    while i < inputs.len()
        invariant
            i <= inputs@.len() <= 25,
            macros_of(inputs@.subrange(0, i as int)) == Ok::<Seq<MacroView>, MacrosError>(
                crate::config::macro_views(out@),
            ),
        decreases inputs@.len() - i,
    {
        let ghost pre = inputs@.subrange(0, i + 1);
        assert(pre.drop_last() =~= inputs@.subrange(0, i as int));
        assert(pre.last() == inputs@[i as int]);
        let mut k = match macro_from(&inputs[i], i) {
            Ok(k) => k,
            Err(e) => {
                assert(inputs@.subrange(0, inputs@.len() as int) =~= inputs@);
                proof {
                    lemma_macros_error_sticks(inputs@, (i + 1) as nat);
                }
                return Err(e);
            },
        };
        let ghost before = k@;
        match k.validate() {
            Ok(()) => {},
            Err(e) => {
                proof {
                    lemma_macros_error_sticks(inputs@, (i + 1) as nat);
                }
                return Err(MacrosError::Invalid(i, e));
            },
        }
        let ghost prev = crate::config::macro_views(out@);
        let ghost kv = k@;
        out.push(k);
        assert(crate::config::macro_views(out@) =~= prev.push(kv));
        i = i + 1;
    }
    assert(inputs@.subrange(0, inputs@.len() as int) =~= inputs@);
    Ok(out)
}

proof fn lemma_macros_error_sticks(ms: Seq<MacroInput>, n: nat)
    requires
        n <= ms.len(),
        macros_of(ms.subrange(0, n as int)) is Err,
    ensures
        macros_of(ms) == macros_of(ms.subrange(0, n as int)),
    decreases ms.len() - n,
{
    if n < ms.len() {
        let next = ms.subrange(0, (n + 1) as int);
        assert(next.drop_last() =~= ms.subrange(0, n as int));
        lemma_macros_error_sticks(ms, n + 1);
    } else {
        assert(ms.subrange(0, n as int) =~= ms);
    }
}

} // verus!
