//! USB methods: which devices are emulated and the emulation state.
use vstd::prelude::*;
use crate::text::{owned, same_text};

verus! {

/// The emulated devices.
pub struct UsbDevicesResponse {
    pub absolute_mouse: bool,
    pub relative_mouse: bool,
    pub keyboard: bool,
    pub mass_storage: bool,
}

/// The devices reported: absolute mouse, keyboard and mass storage; no
/// relative mouse.
pub fn get_usb_devices() -> (r: UsbDevicesResponse)
    ensures
        r.absolute_mouse && !r.relative_mouse && r.keyboard && r.mass_storage,
{
    UsbDevicesResponse { absolute_mouse: true, relative_mouse: false, keyboard: true, mass_storage: true }
}

/// New emulated devices.
pub struct SetUsbDevicesParams {
    pub devices: UsbDevicesResponse,
}

/// One device switched on or off.
pub struct UsbDeviceStateParams {
    pub device: String,
    pub enabled: bool,
}

/// The device names accepted.
pub open spec fn usb_device_ok(d: Seq<char>) -> bool {
    d == "absoluteMouse"@ || d == "relativeMouse"@ || d == "keyboard"@ || d == "massStorage"@
}

/// Checks a device switch: a device not known is refused (its name is
/// given back).
pub fn set_usb_device_state(params: &UsbDeviceStateParams) -> (r: Result<(), String>)
    ensures
        usb_device_ok(params.device@) ==> r is Ok,
        !usb_device_ok(params.device@) ==> (r matches Err(s) && s@ == params.device@),
{
    let d = params.device.as_str();
    if same_text(d, "absoluteMouse") || same_text(d, "relativeMouse") || same_text(d, "keyboard") || same_text(
        d,
        "massStorage",
    ) {
        Ok(())
    } else {
        Err(owned(d))
    }
}

/// Where the controller appears while it is bound to its driver.
pub fn emulation_probe_path(udc: &str) -> (r: String)
    ensures
        r@ == "/sys/bus/platform/drivers/dwc3/"@ + udc@,
{
    let mut s = owned("/sys/bus/platform/drivers/dwc3/");
    s.append(udc);
    s
}

/// Whether emulation is on: there is a controller and its driver entry
/// exists.
pub fn get_usb_emulation_state(udc: Option<&str>, probe_exists: bool) -> (r: bool)
    ensures
        r == (udc is Some && probe_exists),
{
    match udc {
        Some(_) => probe_exists,
        None => false,
    }
}

/// Emulation on or off.
pub struct UsbEmulationParams {
    pub enabled: bool,
}

/// The driver file written to switch emulation: `bind` to switch it on,
/// `unbind` to switch it off.
pub fn emulation_switch_path(params: &UsbEmulationParams) -> (r: &'static str)
    ensures
        r@ == (if params.enabled {
            "/sys/bus/platform/drivers/dwc3/bind"@
        } else {
            "/sys/bus/platform/drivers/dwc3/unbind"@
        }),
{
    if params.enabled {
        "/sys/bus/platform/drivers/dwc3/bind"
    } else {
        "/sys/bus/platform/drivers/dwc3/unbind"
    }
}

/// The USB configuration.
pub struct UsbConfigResponse {
    pub absolute_mouse: bool,
    pub relative_mouse: bool,
    pub keyboard: bool,
    pub mass_storage: bool,
    pub serial_console: bool,
}

/// The configuration reported: every device but the serial console.
pub fn get_usb_config() -> (r: UsbConfigResponse)
    ensures
        r.absolute_mouse && r.relative_mouse && r.keyboard && r.mass_storage && !r.serial_console,
{
    UsbConfigResponse {
        absolute_mouse: true,
        relative_mouse: true,
        keyboard: true,
        mass_storage: true,
        serial_console: false,
    }
}

/// A new USB configuration.
pub struct SetUsbConfigParams {
    pub usb_config: UsbConfigResponse,
}

} // verus!
