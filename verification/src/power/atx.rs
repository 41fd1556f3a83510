//! The ATX front-panel header: power and reset buttons driven as GPIO
//! outputs, power and disk LEDs read as active-low GPIO inputs.
use vstd::prelude::*;
use crate::power::gpio::{GpioError, GpioOp};
use crate::text::same_text;

verus! {

pub const ATX_POWER_PIN: u32 = 124;

pub const ATX_RESET_PIN: u32 = 125;

pub const ATX_PWR_LED_PIN: u32 = 126;

pub const ATX_HDD_LED_PIN: u32 = 127;

/// The extension id under which the ATX control is activated.
pub const ATX_EXTENSION_ID: &'static str = "atx-power";

/// Time given to a freshly exported line, in ms.
pub const ATX_EXPORT_SETTLE_MS: u64 = 50;

/// Length of a short press, in ms.
pub const ATX_SHORT_PRESS_MS: u64 = 200;

/// Length of a long press, in ms.
pub const ATX_LONG_PRESS_MS: u64 = 5000;

/// The host's LEDs.
#[derive(Debug, Clone, Copy, PartialEq, Eq, Structural)]
pub struct AtxState {
    pub power: bool,
    pub hdd: bool,
}

/// A press of a front-panel button: drive `pin` high for `duration_ms`,
/// then low.
#[derive(Debug, Clone, Copy, PartialEq, Eq, Structural)]
pub struct AtxPress {
    pub pin: u32,
    pub duration_ms: u64,
}

/// Why an ATX request was refused.
#[derive(Debug, Clone, PartialEq, Eq)]
pub enum AtxError {
    /// The ATX control is not mounted.
    NotMounted,
    /// A LED line could not be read.
    Gpio(GpioError),
    /// The action is not power-short, power-long or reset; carries the
    /// refused action.
    InvalidAction(String),
}

/// Whether the ATX control is mounted, and the LED state last read.
#[derive(Debug, Clone, Copy, PartialEq, Eq, Structural)]
pub struct AtxControl {
    pub mounted: bool,
    pub leds: AtxState,
}

/// The operations that set up the lines: both buttons as outputs driven
/// low, both LEDs as inputs, each freshly exported line given time to
/// settle.
pub open spec fn mount_ops() -> Seq<GpioOp> {
    seq![
        GpioOp::Export(124),
        GpioOp::Settle(50),
        GpioOp::Direction(124, true),
        GpioOp::Write(124, false),
        GpioOp::Export(125),
        GpioOp::Settle(50),
        GpioOp::Direction(125, true),
        GpioOp::Write(125, false),
        GpioOp::Export(126),
        GpioOp::Settle(50),
        GpioOp::Direction(126, false),
        GpioOp::Export(127),
        GpioOp::Settle(50),
        GpioOp::Direction(127, false),
    ]
}

/// The operations that release the lines: both buttons driven low, then
/// all four lines unexported.
pub open spec fn unmount_ops() -> Seq<GpioOp> {
    seq![
        GpioOp::Write(124, false),
        GpioOp::Write(125, false),
        GpioOp::Unexport(124),
        GpioOp::Unexport(125),
        GpioOp::Unexport(126),
        GpioOp::Unexport(127),
    ]
}

impl AtxControl {
    /// A control that is not mounted, with both LEDs recorded as off.
    pub fn new() -> (r: Self)
        ensures
            !r.mounted,
            r.leds == (AtxState { power: false, hdd: false }),
    {
        AtxControl { mounted: false, leds: AtxState { power: false, hdd: false } }
    }

    /// Mounts the control: the line set-up to carry out, stopping at the
    /// first failure, or nothing when it was mounted already.
    pub fn mount_atx_control(&mut self) -> (r: Vec<GpioOp>)
        ensures
            final(self).mounted,
            final(self).leds == old(self).leds,
            old(self).mounted ==> r@.len() == 0,
            !old(self).mounted ==> r@ == mount_ops(),
    {
        if self.mounted {
            return Vec::new();
        }
        self.mounted = true;
        let r = vec![
            GpioOp::Export(ATX_POWER_PIN),
            GpioOp::Settle(ATX_EXPORT_SETTLE_MS),
            GpioOp::Direction(ATX_POWER_PIN, true),
            GpioOp::Write(ATX_POWER_PIN, false),
            GpioOp::Export(ATX_RESET_PIN),
            GpioOp::Settle(ATX_EXPORT_SETTLE_MS),
            GpioOp::Direction(ATX_RESET_PIN, true),
            GpioOp::Write(ATX_RESET_PIN, false),
            GpioOp::Export(ATX_PWR_LED_PIN),
            GpioOp::Settle(ATX_EXPORT_SETTLE_MS),
            GpioOp::Direction(ATX_PWR_LED_PIN, false),
            GpioOp::Export(ATX_HDD_LED_PIN),
            GpioOp::Settle(ATX_EXPORT_SETTLE_MS),
            GpioOp::Direction(ATX_HDD_LED_PIN, false),
        ];
        assert(r@ =~= mount_ops());
        r
    }

    /// Unmounts the control: the line release to carry out (failures do
    /// not stop it), or nothing when it was not mounted.
    pub fn unmount_atx_control(&mut self) -> (r: Vec<GpioOp>)
        ensures
            !final(self).mounted,
            final(self).leds == old(self).leds,
            !old(self).mounted ==> r@.len() == 0,
            old(self).mounted ==> r@ == unmount_ops(),
    {
        if !self.mounted {
            return Vec::new();
        }
        self.mounted = false;
        let r = vec![
            GpioOp::Write(ATX_POWER_PIN, false),
            GpioOp::Write(ATX_RESET_PIN, false),
            GpioOp::Unexport(ATX_POWER_PIN),
            GpioOp::Unexport(ATX_RESET_PIN),
            GpioOp::Unexport(ATX_PWR_LED_PIN),
            GpioOp::Unexport(ATX_HDD_LED_PIN),
        ];
        assert(r@ =~= unmount_ops());
        r
    }

    /// The LED state, from the raw levels read on the LED lines; refused
    /// when the control is not mounted or a line could not be read. A state
    /// that was read becomes the recorded LED state; a refusal leaves the
    /// record as it was. (Mounting reads the LEDs the same way once the
    /// lines are set up.)
    pub fn get_atx_state(&mut self, pwr_raw: Result<bool, GpioError>, hdd_raw: Result<bool, GpioError>) -> (r:
        Result<AtxState, AtxError>)
        ensures
            !old(self).mounted ==> r == Err::<AtxState, AtxError>(AtxError::NotMounted),
            old(self).mounted ==> r == (match (pwr_raw, hdd_raw) {
                (Ok(p), Ok(h)) => Ok(read_hw_state(p, h)),
                (Err(e), _) => Err(AtxError::Gpio(e)),
                (Ok(_), Err(e)) => Err(AtxError::Gpio(e)),
            }),
            final(self).mounted == old(self).mounted,
            r matches Ok(s) ==> final(self).leds == s,
            r is Err ==> final(self).leds == old(self).leds,
    {
        if !self.mounted {
            return Err(AtxError::NotMounted);
        }
        let p = match pwr_raw {
            Ok(v) => v,
            Err(e) => {
                return Err(AtxError::Gpio(e));
            },
        };
        let h = match hdd_raw {
            Ok(v) => v,
            Err(e) => {
                return Err(AtxError::Gpio(e));
            },
        };
        let state = read_hw_state_exec(p, h);
        self.leds = state;
        Ok(state)
    }
}

/// The LED state from the raw line levels: the LEDs are active low.
pub open spec fn read_hw_state(pwr_raw: bool, hdd_raw: bool) -> AtxState {
    AtxState { power: !pwr_raw, hdd: !hdd_raw }
}

/// The LED state from the raw line levels: the LEDs are active low.
pub fn read_hw_state_exec(pwr_raw: bool, hdd_raw: bool) -> (r: AtxState)
    ensures
        r == read_hw_state(pwr_raw, hdd_raw),
{
    AtxState { power: !pwr_raw, hdd: !hdd_raw }
}

/// A press of the power button.
pub fn press_atx_power_button(duration_ms: u64) -> (r: AtxPress)
    ensures
        r == (AtxPress { pin: ATX_POWER_PIN, duration_ms }),
{
    AtxPress { pin: ATX_POWER_PIN, duration_ms }
}

/// A press of the reset button.
pub fn press_atx_reset_button(duration_ms: u64) -> (r: AtxPress)
    ensures
        r == (AtxPress { pin: ATX_RESET_PIN, duration_ms }),
{
    AtxPress { pin: ATX_RESET_PIN, duration_ms }
}

/// The press a named action stands for: `power-short` (200 ms on the power
/// button), `power-long` (5 s on the power button) or `reset` (200 ms on
/// the reset button); none for any other action.
pub open spec fn action_press(action: Seq<char>) -> Option<AtxPress> {
    if action == "power-short"@ {
        Some(AtxPress { pin: 124, duration_ms: 200 })
    } else if action == "power-long"@ {
        Some(AtxPress { pin: 124, duration_ms: 5000 })
    } else if action == "reset"@ {
        Some(AtxPress { pin: 125, duration_ms: 200 })
    } else {
        None
    }
}

/// The press a named power action asks for (see [`action_press`]); any
/// other action is refused with its own text.
pub fn set_atx_power_action(action: &str) -> (r: Result<AtxPress, AtxError>)
    ensures
        action_press(action@) matches Some(p) ==> r == Ok::<AtxPress, AtxError>(p),
        action_press(action@) is None ==> (r matches Err(AtxError::InvalidAction(a)) && a@ == action@),
{
    if same_text(action, "power-short") {
        Ok(press_atx_power_button(ATX_SHORT_PRESS_MS))
    } else if same_text(action, "power-long") {
        Ok(press_atx_power_button(ATX_LONG_PRESS_MS))
    } else if same_text(action, "reset") {
        Ok(press_atx_reset_button(ATX_SHORT_PRESS_MS))
    } else {
        Err(AtxError::InvalidAction(crate::text::owned(action)))
    }
}

} // verus!
