//! GPIO lines as sysfs exposes them, and the operations on them that the
//! power controls plan.
use vstd::prelude::*;
use crate::text::{chars_of, owned, push_decimal, string_of, trim_chars, trimmed, decimal};

verus! {

/// One sysfs GPIO operation, carried out in order by the caller.
#[derive(Debug, Clone, Copy, PartialEq, Eq, Structural)]
pub enum GpioOp {
    /// Export the line (write its number to `export`).
    Export(u32),
    /// Export the line unless its directory already exists.
    EnsureExported(u32),
    /// Give the export time to settle, in ms.
    Settle(u64),
    /// Set the line's direction: `true` for output.
    Direction(u32, bool),
    /// Drive the output line high (`true`) or low.
    Write(u32, bool),
    /// Unexport the line.
    Unexport(u32),
}

/// Why a GPIO value was refused.
#[derive(Debug, Clone, Copy, PartialEq, Eq, Structural)]
pub enum GpioError {
    /// The value file held something other than `0` or `1`.
    UnexpectedValue,
}

/// The path of attribute `file` of GPIO line `pin`.
pub open spec fn gpio_path_of(pin: u32, file: Seq<char>) -> Seq<char> {
    "/sys/class/gpio/gpio"@ + decimal(pin as nat) + seq!['/'] + file
}

/// The path of attribute `file` of GPIO line `pin`.
pub fn gpio_path(pin: u32, file: &str) -> (r: String)
    ensures
        r@ == gpio_path_of(pin, file@),
{
    let mut cs = chars_of("/sys/class/gpio/gpio");
    push_decimal(&mut cs, pin as u128);
    cs.push('/');
    let mut s = string_of(cs.as_slice());
    s.append(file);
    proof {
        assert(cs@ == "/sys/class/gpio/gpio"@ + decimal(pin as nat) + seq!['/']);
    }
    s
}

/// The value a GPIO value file stands for: `1` or `0`, white space around
/// it not counting.
pub open spec fn gpio_value_of(content: Seq<char>) -> Result<bool, GpioError> {
    let t = trimmed(content);
    if t == seq!['1'] {
        Ok(true)
    } else if t == seq!['0'] {
        Ok(false)
    } else {
        Err(GpioError::UnexpectedValue)
    }
}

/// Reads the content of a GPIO value file.
pub fn parse_gpio_value(content: &str) -> (r: Result<bool, GpioError>)
    ensures
        r == gpio_value_of(content@),
{
    let cs = chars_of(content);
    let t = trim_chars(cs.as_slice());
    if t.len() == 1 && t[0] == '1' {
        assert(t@ =~= seq!['1']);
        Ok(true)
    } else if t.len() == 1 && t[0] == '0' {
        assert(t@ =~= seq!['0']);
        Ok(false)
    } else {
        proof {
            if t@.len() == 1 {
                assert(t@ != seq!['1']) by {
                    assert(seq!['1'][0] == '1');
                }
                assert(t@ != seq!['0']) by {
                    assert(seq!['0'][0] == '0');
                }
            }
        }
        Err(GpioError::UnexpectedValue)
    }
}

} // verus!
