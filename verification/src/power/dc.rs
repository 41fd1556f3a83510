//! The DC power switch: an optional GPIO line that switches the host's
//! supply, a restore mode applied after a power loss, and which power
//! extension is active.
use vstd::prelude::*;
use crate::power::gpio::{GpioError, GpioOp};
use crate::text::{chars_of, parse_unsigned, parse_unsigned_exec, same_text, trim_chars, trimmed};

verus! {

/// The extension id under which the DC control is activated.
pub const DC_EXTENSION_ID: &'static str = "dc-power";

/// Time given to a freshly exported line, in ms.
pub const DC_EXPORT_SETTLE_MS: u64 = 100;

/// Why a DC request was refused.
#[derive(Debug, Clone, Copy, PartialEq, Eq, Structural)]
pub enum DcError {
    /// The restore mode is not 0 (off), 1 (on) or 2 (last state).
    InvalidRestoreState(i32),
    /// The switch line could not be driven as planned.
    LineFailed,
}

/// What the DC control remembers: whether power is on (when no GPIO line
/// tells) and the restore mode (-1 until one is set).
#[derive(Debug, Clone, Copy, PartialEq, Eq, Structural)]
pub struct DcControl {
    pub is_on: bool,
    pub restore_state: i32,
}

/// The GPIO line of the DC switch, from the value of the environment
/// variable that names it: 0 (no line) unless it holds a `u32`.
pub fn dc_power_gpio(env_value: Option<&str>) -> (r: u32)
    ensures
        r == (match env_value {
            Some(v) => match parse_unsigned(v@, 0xffff_ffff) {
                Some(n) => n as u32,
                None => 0u32,
            },
            None => 0u32,
        }),
{
    match env_value {
        Some(v) => {
            let cs = chars_of(v);
            match parse_unsigned_exec(cs.as_slice(), 0xffff_ffff) {
                Some(n) => n as u32,
                None => 0,
            }
        },
        None => 0,
    }
}

/// The power supply kinds whose readings are used.
pub open spec fn supply_type_supported(t: Seq<char>) -> bool {
    let k = trimmed(t);
    k == "Mains"@ || k == "USB"@ || k == "Battery"@ || k == "UPS"@
}

/// Whether a power supply of this kind (the content of its `type` file) is
/// used.
pub fn is_supported_supply_type(t: &str) -> (r: bool)
    ensures
        r == supply_type_supported(t@),
{
    let cs = chars_of(t);
    let k = trim_chars(cs.as_slice());
    let ks = crate::text::string_of(k.as_slice());
    let s = ks.as_str();
    same_text(s, "Mains") || same_text(s, "USB") || same_text(s, "Battery") || same_text(s, "UPS")
}

impl DcControl {
    /// The state before anything was set: power off, no restore mode.
    pub fn new() -> (r: Self)
        ensures
            !r.is_on,
            r.restore_state == -1,
    {
        DcControl { is_on: false, restore_state: -1 }
    }

    /// Whether power is on: what the switch line reads when there is one
    /// (off when it cannot be read), what was last set otherwise.
    pub fn power_is_on(&self, gpio: u32, line: Result<bool, GpioError>) -> (r: bool)
        ensures
            r == (if gpio == 0 {
                self.is_on
            } else {
                match line {
                    Ok(v) => v,
                    Err(_) => false,
                }
            }),
    {
        if gpio != 0 {
            match line {
                Ok(v) => v,
                Err(_) => false,
            }
        } else {
            self.is_on
        }
    }

    /// Switching power, first step: the line operations to carry out (none
    /// without a line). Nothing is remembered until they were carried out
    /// (see [`DcControl::power_state_applied`]).
    pub fn set_dc_power_state(&self, enabled: bool, gpio: u32) -> (r: Vec<GpioOp>)
        ensures
            gpio == 0 ==> r@.len() == 0,
            gpio != 0 ==> r@ == seq![
                GpioOp::EnsureExported(gpio),
                GpioOp::Settle(100),
                GpioOp::Direction(gpio, true),
                GpioOp::Write(gpio, enabled),
            ],
    {
        let mut ops: Vec<GpioOp> = Vec::new();
        if gpio != 0 {
            ops.push(GpioOp::EnsureExported(gpio));
            ops.push(GpioOp::Settle(DC_EXPORT_SETTLE_MS));
            ops.push(GpioOp::Direction(gpio, true));
            ops.push(GpioOp::Write(gpio, enabled));
        }
        ops
    }

    /// Switching power, second step: once the line operations went through
    /// (`lines_ok`), the new state is remembered; when one failed, the old
    /// state stays.
    pub fn power_state_applied(&mut self, enabled: bool, lines_ok: bool) -> (r: Result<(), DcError>)
        ensures
            lines_ok ==> r is Ok && final(self).is_on == enabled,
            !lines_ok ==> r == Err::<(), DcError>(DcError::LineFailed) && final(self).is_on == old(self).is_on,
            final(self).restore_state == old(self).restore_state,
    {
        if !lines_ok {
            return Err(DcError::LineFailed);
        }
        self.is_on = enabled;
        Ok(())
    }

    /// Setting the restore mode (0 off, 1 on, 2 last state), first step:
    /// the mode is checked, and with a switch line modes 0 and 1 drive the
    /// line after it; mode 2 is left to the hardware. Nothing is remembered
    /// until the writes were carried out (see
    /// [`DcControl::restore_state_applied`]).
    pub fn set_dc_restore_state(&self, state: i32, gpio: u32) -> (r: Result<Vec<GpioOp>, DcError>)
        requires
            gpio < 0xffff_ffff,
        ensures
            !(0 <= state <= 2) ==> r == Err::<Vec<GpioOp>, DcError>(DcError::InvalidRestoreState(state)),
            0 <= state <= 2 ==> (r matches Ok(ops) && ops@ == (if gpio != 0 && state != 2 {
                seq![GpioOp::Write((gpio + 1) as u32, state == 1)]
            } else {
                Seq::empty()
            })),
    {
        if state != 0 && state != 1 && state != 2 {
            return Err(DcError::InvalidRestoreState(state));
        }
        let mut ops: Vec<GpioOp> = Vec::new();
        if gpio != 0 && state != 2 {
            ops.push(GpioOp::Write(gpio + 1, state == 1));
        }
        Ok(ops)
    }

    /// Setting the restore mode, second step: a valid mode whose writes
    /// went through (`lines_ok`) is remembered; otherwise the old mode
    /// stays.
    pub fn restore_state_applied(&mut self, state: i32, lines_ok: bool) -> (r: Result<(), DcError>)
        ensures
            !(0 <= state <= 2) ==> r == Err::<(), DcError>(DcError::InvalidRestoreState(state)),
            0 <= state <= 2 && !lines_ok ==> r == Err::<(), DcError>(DcError::LineFailed),
            0 <= state <= 2 && lines_ok ==> r is Ok,
            r is Ok ==> final(self).restore_state == state,
            r is Err ==> final(self).restore_state == old(self).restore_state,
            final(self).is_on == old(self).is_on,
    {
        if state != 0 && state != 1 && state != 2 {
            return Err(DcError::InvalidRestoreState(state));
        }
        if !lines_ok {
            return Err(DcError::LineFailed);
        }
        self.restore_state = state;
        Ok(())
    }

    /// The restore mode.
    pub fn get_dc_restore_state(&self) -> (r: i32)
        ensures
            r == self.restore_state,
    {
        self.restore_state
    }
}

/// The line set-up when the DC control is mounted.
pub fn mount_dc_control(gpio: u32) -> (r: Vec<GpioOp>)
    ensures
        gpio == 0 ==> r@.len() == 0,
        gpio != 0 ==> r@ == seq![
            GpioOp::EnsureExported(gpio),
            GpioOp::Settle(100),
            GpioOp::Direction(gpio, true),
        ],
{
    let mut ops: Vec<GpioOp> = Vec::new();
    if gpio != 0 {
        ops.push(GpioOp::EnsureExported(gpio));
        ops.push(GpioOp::Settle(DC_EXPORT_SETTLE_MS));
        ops.push(GpioOp::Direction(gpio, true));
    }
    ops
}

/// The line release when the DC control is unmounted.
pub fn unmount_dc_control(gpio: u32) -> (r: Vec<GpioOp>)
    ensures
        gpio == 0 ==> r@.len() == 0,
        gpio != 0 ==> r@ == seq![GpioOp::Unexport(gpio)],
{
    let mut ops: Vec<GpioOp> = Vec::new();
    if gpio != 0 {
        ops.push(GpioOp::Unexport(gpio));
    }
    ops
}

/// A power extension.
#[derive(Debug, Clone, Copy, PartialEq, Eq, Structural)]
pub enum PowerExtension {
    Atx,
    Dc,
}

/// The extension an id names.
pub open spec fn extension_of(id: Seq<char>) -> Option<PowerExtension> {
    if id == "atx-power"@ {
        Some(PowerExtension::Atx)
    } else if id == "dc-power"@ {
        Some(PowerExtension::Dc)
    } else {
        None
    }
}

/// What switching the active extension asks for, in order: unmount the old
/// one, keep the new id in the configuration (`None` for the empty id),
/// mount the new one; an unknown new id is refused after it was kept.
pub struct ExtensionSwitch {
    pub unmount: Option<PowerExtension>,
    pub save: bool,
    pub saved_id: Option<String>,
    pub mount: Option<PowerExtension>,
    pub unknown: bool,
}

fn extension_of_exec(id: &str) -> (r: Option<PowerExtension>)
    ensures
        r == extension_of(id@),
{
    if same_text(id, "atx-power") {
        Some(PowerExtension::Atx)
    } else if same_text(id, "dc-power") {
        Some(PowerExtension::Dc)
    } else {
        None
    }
}

/// What switching from the active extension `current` to `new` asks for.
pub fn set_active_extension(current: &str, new: &str) -> (r: ExtensionSwitch)
    ensures
        current@ == new@ ==> !r.save && r.unmount is None && r.mount is None && !r.unknown,
        current@ != new@ ==> r.save && r.unmount == extension_of(current@) && r.mount
            == extension_of(new@) && (match r.saved_id {
            Some(s) => new@.len() > 0 && s@ == new@,
            None => new@.len() == 0,
        }) && r.unknown == (new@.len() > 0 && extension_of(new@) is None),
{
    if same_text(current, new) {
        return ExtensionSwitch { unmount: None, save: false, saved_id: None, mount: None, unknown: false };
    }
    let empty = new.unicode_len() == 0;
    let mount = extension_of_exec(new);
    ExtensionSwitch {
        unmount: extension_of_exec(current),
        save: true,
        saved_id: if empty {
            None
        } else {
            Some(crate::text::owned(new))
        },
        mount,
        unknown: !empty && mount.is_none(),
    }
}

} // verus!
