# rustkvm

The decision logic of RustKVM, a KVM-over-IP daemon for RK3588 boards, as a
library verified with Verus, and a thin daemon around it.

- `src/` is the verified library. Each module holds the rules of one part of
  the device: HID reports and the keys held down (`hid`), the binary HID
  channel and keyboard macros (`hidrpc`), the USB gadget under configfs
  (`gadget`, `usb`), ATX and DC power control over GPIO lines (`power`),
  the configuration and its checks (`config`), local authentication
  (`auth`), the cloud connection and its messages (`cloud`), WebRTC data
  channels and signaling (`channels`, `sessions`), MQTT settings, commands
  and Home Assistant discovery (`mqtt`, `mqtt_link`, `discovery`), the
  JSON-RPC surface (`api`), failsafe mode, the jiggler, EDID blocks, PEM
  certificates, time sync, platform tuning and the network interface.
  Where the library works with the outside world it plans steps (configfs
  writes, GPIO operations, MQTT publications) or takes what was read as
  plain values; the few calls into outside crates (base64, bcrypt, hex,
  httpdate, uuid, and some of std) sit behind small trusted wrappers whose
  contracts say what the library relies on.
- `tests/` runs the library on concrete values, one file per area.
- `app/` is the daemon: command line, configuration file, the system calls
  and file I/O that carry out what the library decides.

The daemon runs the start-up path: arguments, failsafe check, platform
tuning, time sync, the configuration file, hostname, network state,
hardware path checks, the USB gadget and the jiggler. The network services
that answer clients (the web and JSON-RPC server, the MQTT and cloud
clients, WebRTC with its video and audio pipeline, mDNS) are not part of
it; their rules (RPC dispatch, discovery payloads, channel handling, power
control, authentication) are in the library for such a service layer to
call.
