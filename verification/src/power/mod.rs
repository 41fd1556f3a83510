//! Control of the host's power: the ATX front-panel header and a DC power
//! switch, both driven through sysfs GPIO lines.
pub mod atx;
pub mod dc;
pub mod gpio;

pub use atx::AtxState;
