use vstd::prelude::*;

pub mod api;
pub mod auth;
pub mod channels;
pub mod cli;
pub mod cloud;
pub mod config;
pub mod dev_mode;
pub mod discovery;
pub mod edid;
pub mod encoding;
pub mod failsafe;
pub mod gadget;
pub mod hid;
pub mod hidrpc;
pub mod jiggler;
pub mod mqtt;
pub mod mqtt_link;
pub mod network;
pub mod pem;
pub mod power;
pub mod sessions;
pub mod text;
pub mod time_sync;
pub mod tls;
pub mod tuning;
pub mod usb;
pub mod version;

verus! {

} // verus!
