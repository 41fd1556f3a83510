//! The binary HID channel: what each inbound message asks for, the state of
//! the channel and of a running keyboard macro, and how a macro is played.
use vstd::prelude::*;

verus! {

/// One step of a keyboard macro: a report, then a pause.
pub struct MacroStep {
    pub modifier: u8,
    pub keys: Vec<u8>,
    pub delay: u32,
}

/// The kinds of message that only the device sends.
#[derive(Debug, Clone, Copy, PartialEq, Eq, Structural)]
pub enum OutboundKind {
    WheelReport,
    KeyboardLedState,
    KeydownState,
    KeyboardMacroState,
}

/// An inbound message, decoded.
pub enum HidRpcMessage {
    Handshake,
    KeyboardReport { modifier: u8, keys: Vec<u8> },
    KeypressReport { key: u8, press: bool },
    PointerReport { x: i32, y: i32, button: u8 },
    MouseReport { dx: i8, dy: i8, button: u8 },
    KeyboardMacroReport { is_paste: bool, steps: Vec<MacroStep> },
    CancelKeyboardMacroReport,
    KeypressKeepAliveReport,
    /// A message of a kind that only the device sends.
    Unexpected(OutboundKind),
    /// A message whose type is known but whose body could not be read.
    Malformed,
}

/// What the dispatcher does with a frame.
pub enum HidRpcAction {
    /// Nothing (text frames, undecodable frames, keep-alives and messages
    /// that only the device sends).
    Ignore,
    /// Answer with the device's handshake.
    SendHandshake,
    KeyboardReport { modifier: u8, keys: Vec<u8> },
    KeypressReport { key: u8, press: bool },
    AbsMouseReport { x: i32, y: i32, button: u8 },
    RelMouseReport { dx: i8, dy: i8, button: u8 },
    StartMacro { is_paste: bool, steps: Vec<MacroStep> },
    CancelMacro,
}

/// What the dispatcher does with a frame: text frames and frames that do
/// not decode are ignored; each report goes to the matching HID report;
/// a macro is started or cancelled; the rest is ignored.
pub fn dispatch(is_string: bool, msg: Option<HidRpcMessage>) -> (r: HidRpcAction)
    ensures
        is_string ==> r is Ignore,
        !is_string ==> match msg {
            None => r is Ignore,
            Some(HidRpcMessage::Handshake) => r is SendHandshake,
            Some(HidRpcMessage::KeyboardReport { modifier, keys }) => r == (HidRpcAction::KeyboardReport {
                modifier,
                keys,
            }),
            Some(HidRpcMessage::KeypressReport { key, press }) => r == (HidRpcAction::KeypressReport { key, press }),
            Some(HidRpcMessage::PointerReport { x, y, button }) => r == (HidRpcAction::AbsMouseReport {
                x,
                y,
                button,
            }),
            Some(HidRpcMessage::MouseReport { dx, dy, button }) => r == (HidRpcAction::RelMouseReport {
                dx,
                dy,
                button,
            }),
            Some(HidRpcMessage::KeyboardMacroReport { is_paste, steps }) => r == (HidRpcAction::StartMacro {
                is_paste,
                steps,
            }),
            Some(HidRpcMessage::CancelKeyboardMacroReport) => r is CancelMacro,
            Some(_) => r is Ignore,
        },
{
    if is_string {
        return HidRpcAction::Ignore;
    }
    match msg {
        None => HidRpcAction::Ignore,
        Some(m) => match m {
            HidRpcMessage::Handshake => HidRpcAction::SendHandshake,
            HidRpcMessage::KeyboardReport { modifier, keys } => HidRpcAction::KeyboardReport { modifier, keys },
            HidRpcMessage::KeypressReport { key, press } => HidRpcAction::KeypressReport { key, press },
            HidRpcMessage::PointerReport { x, y, button } => HidRpcAction::AbsMouseReport { x, y, button },
            HidRpcMessage::MouseReport { dx, dy, button } => HidRpcAction::RelMouseReport { dx, dy, button },
            HidRpcMessage::KeyboardMacroReport { is_paste, steps } => HidRpcAction::StartMacro { is_paste, steps },
            HidRpcMessage::CancelKeyboardMacroReport => HidRpcAction::CancelMacro,
            HidRpcMessage::KeypressKeepAliveReport => HidRpcAction::Ignore,
            HidRpcMessage::Unexpected(_) => HidRpcAction::Ignore,
            HidRpcMessage::Malformed => HidRpcAction::Ignore,
        },
    }
}

/// The dispatcher's state: whether the reliable channel is bound and
/// whether a macro is running.
#[derive(Debug, Clone, Copy, PartialEq, Eq, Structural)]
pub struct DispatcherState {
    pub reliable_channel: bool,
    pub macro_running: bool,
}

impl DispatcherState {
    /// Nothing bound, no macro.
    pub fn new() -> (r: Self)
        ensures
            !r.reliable_channel && !r.macro_running,
    {
        DispatcherState { reliable_channel: false, macro_running: false }
    }

    /// The reliable channel is bound.
    pub fn install_reliable_channel(&mut self)
        ensures
            final(self).reliable_channel,
            final(self).macro_running == old(self).macro_running,
    {
        self.reliable_channel = true;
    }

    /// The reliable channel is gone: it is unbound and a running macro is
    /// cancelled; the result tells whether there was one to cancel.
    pub fn clear_reliable_channel(&mut self) -> (r: bool)
        ensures
            r == old(self).macro_running,
            !final(self).reliable_channel,
            !final(self).macro_running,
    {
        let had = self.macro_running;
        self.reliable_channel = false;
        self.macro_running = false;
        had
    }

    /// A frame to the client is sent only over a bound reliable channel.
    pub fn can_send(&self) -> (r: bool)
        ensures
            r == self.reliable_channel,
    {
        self.reliable_channel
    }

    /// A macro starts: a running one is cancelled first (the result tells
    /// whether there was one), then the macro runs.
    pub fn start_macro(&mut self) -> (r: bool)
        ensures
            r == old(self).macro_running,
            final(self).macro_running,
            final(self).reliable_channel == old(self).reliable_channel,
    {
        let had = self.macro_running;
        self.macro_running = true;
        had
    }

    /// A cancel request: the running macro, if any, stops.
    pub fn cancel_macro(&mut self) -> (r: bool)
        ensures
            r == old(self).macro_running,
            !final(self).macro_running,
            final(self).reliable_channel == old(self).reliable_channel,
    {
        let had = self.macro_running;
        self.macro_running = false;
        had
    }
}

/// Where the player of a macro is.
#[derive(Debug, Clone, Copy, PartialEq, Eq, Structural)]
pub enum MacroPhase {
    /// About to play step `i`.
    BeforeStep(usize),
    /// Step `i` was reported; its pause is next.
    AfterReport(usize),
    /// In the pause of step `i`.
    Sleeping(usize),
    /// Finished.
    Done,
}

/// What happened to the player's last action.
#[derive(Debug, Clone, Copy, PartialEq, Eq, Structural)]
pub enum MacroEvent {
    /// It completed.
    Proceed,
    /// The macro was cancelled.
    Cancelled,
    /// The report could not be written.
    ReportFailed,
}

/// What the player does next.
pub enum MacroAction {
    /// Write this keyboard report.
    Report(u8, Vec<u8>),
    /// Pause this many ms (a cancel ends the pause early).
    Sleep(u64),
    /// Release every key: the empty report.
    Release,
    /// Nothing more: the macro is over.
    Stop,
    /// Go on to the next step.
    Continue,
}

/// The player's next phase and action, for the steps, where it is, and what
/// happened: before a step a cancel stops it, and after the last step it
/// stops; otherwise the step's report is written. A failed report stops it;
/// otherwise the step's pause follows. A cancel during the pause releases
/// every key and stops it; otherwise the next step follows.
pub open spec fn macro_next(steps: Seq<MacroStep>, phase: MacroPhase, ev: MacroEvent) -> MacroPhase {
    match phase {
        MacroPhase::BeforeStep(i) => if ev == MacroEvent::Cancelled || i >= steps.len() {
            MacroPhase::Done
        } else {
            MacroPhase::AfterReport(i)
        },
        MacroPhase::AfterReport(i) => if ev == MacroEvent::ReportFailed || ev == MacroEvent::Cancelled {
            MacroPhase::Done
        } else {
            MacroPhase::Sleeping(i)
        },
        MacroPhase::Sleeping(i) => if ev == MacroEvent::Cancelled {
            MacroPhase::Done
        } else {
            MacroPhase::BeforeStep((i + 1) as usize)
        },
        MacroPhase::Done => MacroPhase::Done,
    }
}

/// The player of one macro.
pub struct MacroPlayer {
    pub phase: MacroPhase,
}

impl MacroPlayer {
    /// A player about to play the first step.
    pub fn new() -> (r: Self)
        ensures
            r.phase == MacroPhase::BeforeStep(0),
    {
        MacroPlayer { phase: MacroPhase::BeforeStep(0) }
    }

    /// One move of the player.
    pub fn step(&mut self, steps: &Vec<MacroStep>, ev: MacroEvent) -> (r: MacroAction)
        requires
            match old(self).phase {
                MacroPhase::AfterReport(i) => i < steps@.len(),
                MacroPhase::Sleeping(i) => i < steps@.len(),
                _ => true,
            },
        ensures
            final(self).phase == macro_next(steps@, old(self).phase, ev),
            match final(self).phase {
                MacroPhase::AfterReport(i) => i < steps@.len(),
                MacroPhase::Sleeping(i) => i < steps@.len(),
                _ => true,
            },
            match (old(self).phase, final(self).phase) {
                (MacroPhase::BeforeStep(_), MacroPhase::AfterReport(i)) => r matches MacroAction::Report(m, k)
                    && m == steps@[i as int].modifier && k@ == steps@[i as int].keys@,
                (MacroPhase::AfterReport(i), MacroPhase::Sleeping(_)) => r matches MacroAction::Sleep(d) && d
                    == steps@[i as int].delay,
                (MacroPhase::Sleeping(_), MacroPhase::Done) => r is Release,
                (MacroPhase::Sleeping(_), MacroPhase::BeforeStep(_)) => r is Continue,
                (_, MacroPhase::Done) => r is Stop,
                _ => true,
            },
    {
        match self.phase {
            MacroPhase::BeforeStep(i) => {
                if ev == MacroEvent::Cancelled || i >= steps.len() {
                    self.phase = MacroPhase::Done;
                    MacroAction::Stop
                } else {
                    self.phase = MacroPhase::AfterReport(i);
                    let s = &steps[i];
                    let mut keys: Vec<u8> = Vec::new();
                    let mut j: usize = 0;
                    while j < s.keys.len()
                        invariant
                            j <= s.keys@.len(),
                            keys@ == s.keys@.subrange(0, j as int),
                        decreases s.keys@.len() - j,
                    {
                        keys.push(s.keys[j]);
                        assert(keys@ =~= s.keys@.subrange(0, j + 1));
                        j = j + 1;
                    }
                    assert(s.keys@.subrange(0, s.keys@.len() as int) =~= s.keys@);
                    MacroAction::Report(s.modifier, keys)
                }
            },
            MacroPhase::AfterReport(i) => {
                if ev == MacroEvent::ReportFailed || ev == MacroEvent::Cancelled {
                    self.phase = MacroPhase::Done;
                    MacroAction::Stop
                } else {
                    self.phase = MacroPhase::Sleeping(i);
                    MacroAction::Sleep(steps[i].delay as u64)
                }
            },
            MacroPhase::Sleeping(i) => {
                let n = steps.len();
                if ev == MacroEvent::Cancelled {
                    self.phase = MacroPhase::Done;
                    MacroAction::Release
                } else {
                    self.phase = MacroPhase::BeforeStep(i + 1);
                    MacroAction::Continue
                }
            },
            MacroPhase::Done => MacroAction::Stop,
        }
    }
}

/// A macro that is never cancelled and whose reports all succeed ends after
/// reporting and pausing every step, in order.
pub proof fn lemma_macro_runs_every_step(steps: Seq<MacroStep>, i: usize)
    requires
        i < steps.len() <= usize::MAX,
    ensures
        macro_next(steps, MacroPhase::BeforeStep(i), MacroEvent::Proceed) == MacroPhase::AfterReport(i),
        macro_next(steps, MacroPhase::AfterReport(i), MacroEvent::Proceed) == MacroPhase::Sleeping(i),
        macro_next(steps, MacroPhase::Sleeping(i), MacroEvent::Proceed) == MacroPhase::BeforeStep((i + 1) as usize),
        macro_next(steps, MacroPhase::BeforeStep(steps.len() as usize), MacroEvent::Proceed) == MacroPhase::Done,
{
}

/// Once finished, a player stays finished whatever happens.
pub proof fn lemma_macro_done_stays(steps: Seq<MacroStep>, ev: MacroEvent)
    ensures
        macro_next(steps, MacroPhase::Done, ev) == MacroPhase::Done,
{
}

} // verus!
