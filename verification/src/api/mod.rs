//! The JSON-RPC methods offered to the web client: their parameters and
//! answers, and what each decides.
pub mod hid;
pub mod media;
pub mod network;
pub mod registry;
pub mod system;
pub mod usb;
