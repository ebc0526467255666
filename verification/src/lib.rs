//! Verified core of a bridge between a network-controlled client and a
//! USB-serial peripheral that emulates mouse input.
//!
//! The library covers the logic of the bridge: the line-oriented device
//! command protocol, the response framing and telegram parsing of the serial
//! link, the input emulation state machine with its debounce monitor, and the
//! secure packet pipeline that turns an untrusted datagram into a typed
//! command. The surrounding I/O (serial port, network listeners, timers)
//! lives outside the library and drives it with plain values.

pub mod commands;
pub mod crypto;
pub mod emulator;
pub mod framing;
pub mod handler;
pub mod muxer;
pub mod protocol;
pub mod server;
pub mod session;

use vstd::prelude::*;

verus! {

/// Checks a device identification string against the expected reply of a
/// supported device.
pub fn check_version(version: &str) -> (r: bool)
    ensures
        r == (version@ == "km.MAKCU"@),
{
    version.to_owned() == "km.MAKCU".to_owned()
}

/// Whether an enumerated USB port is the supported device, by vendor and
/// product identifier. Enumeration itself is the unverified shell's.
pub fn is_target_device(vid: u16, pid: u16) -> (r: bool)
    ensures
        r == (vid == 0x1A86u16 && pid == 0x55D3u16),
{
    vid == 0x1A86 && pid == 0x55D3
}

} // verus!
