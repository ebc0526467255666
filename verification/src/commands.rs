//! Builders for the device-facing serial command protocol.
//!
//! Every command toward the device is an exact byte sequence: the ASCII
//! line-oriented commands end in a carriage return, and the out-of-band
//! mode-switch command is a fixed nine-byte binary frame. Each builder's
//! contract pins the produced bytes down to a spec-level byte sequence.

use vstd::prelude::*;

verus! {

/// One write toward the device, as the emulation layer decides it. The
/// builders below turn each write into its exact wire bytes.
#[derive(Clone, Copy, Debug, PartialEq, Eq, Structural)]
pub enum DeviceWrite {
    /// Lock the physical primary button.
    LockPrimary,
    /// Lock the physical secondary button.
    LockSecondary,
    /// Unlock the physical primary button.
    UnlockPrimary,
    /// Unlock the physical secondary button.
    UnlockSecondary,
    /// Emulated primary button down.
    PressDown,
    /// Emulated primary button up.
    PressUp,
    /// Relative cursor movement; each axis is clamped to a signed byte.
    Move(i32, i32),
}

/// Clamps a coordinate to the signed 8-bit range that the wire format can
/// carry (each axis travels as one signed byte).
pub open spec fn clamp_axis(v: int) -> int {
    if v < -128 {
        -128
    } else if v > 127 {
        127
    } else {
        v
    }
}

/// Decimal digit bytes of a non-negative integer, most significant first.
pub open spec fn decimal_digits(n: int) -> Seq<u8>
    recommends
        n >= 0,
    decreases n,
{
    if n < 10 {
        seq![(48 + n) as u8]
    } else {
        decimal_digits(n / 10).push((48 + n % 10) as u8)
    }
}

/// ASCII decimal rendering of an integer, with a leading minus sign when
/// negative.
pub open spec fn decimal_bytes(n: int) -> Seq<u8> {
    if n < 0 {
        seq![45u8] + decimal_digits(-n)
    } else {
        decimal_digits(n)
    }
}

/// The bytes of `km.move(<dx>,<dy>)\r` with both axes already clamped.
pub open spec fn move_command_bytes(x: int, y: int) -> Seq<u8> {
    seq![107u8, 109u8, 46u8, 109u8, 111u8, 118u8, 101u8, 40u8] + decimal_bytes(clamp_axis(x))
        + seq![44u8] + decimal_bytes(clamp_axis(y)) + seq![41u8, 13u8]
}

/// The bytes of `km.version()\r`.
pub open spec fn version_command_bytes() -> Seq<u8> {
    seq![107u8, 109u8, 46u8, 118u8, 101u8, 114u8, 115u8, 105u8, 111u8, 110u8, 40u8, 41u8, 13u8]
}

/// The bytes of `km.left(1)\r`.
pub open spec fn press_command_bytes() -> Seq<u8> {
    seq![107u8, 109u8, 46u8, 108u8, 101u8, 102u8, 116u8, 40u8, 49u8, 41u8, 13u8]
}

/// The bytes of `km.left(0)\r`.
pub open spec fn release_command_bytes() -> Seq<u8> {
    seq![107u8, 109u8, 46u8, 108u8, 101u8, 102u8, 116u8, 40u8, 48u8, 41u8, 13u8]
}

/// The bytes of `km.lock_ml(1)\r` or `km.lock_ml(0)\r`.
pub open spec fn lock_ml_command_bytes(engage: bool) -> Seq<u8> {
    seq![107u8, 109u8, 46u8, 108u8, 111u8, 99u8, 107u8, 95u8, 109u8, 108u8, 40u8]
        + seq![if engage { 49u8 } else { 48u8 }] + seq![41u8, 13u8]
}

/// The bytes of `km.lock_ms1(1)\r` or `km.lock_ms1(0)\r`.
pub open spec fn lock_ms1_command_bytes(engage: bool) -> Seq<u8> {
    seq![107u8, 109u8, 46u8, 108u8, 111u8, 99u8, 107u8, 95u8, 109u8, 115u8, 49u8, 40u8]
        + seq![if engage { 49u8 } else { 48u8 }] + seq![41u8, 13u8]
}

/// The bytes of `km.buttons(1)\r`, which enables unsolicited button telegrams.
pub open spec fn buttons_command_bytes() -> Seq<u8> {
    seq![107u8, 109u8, 46u8, 98u8, 117u8, 116u8, 116u8, 111u8, 110u8, 115u8, 40u8, 49u8, 41u8, 13u8]
}

/// The little-endian bytes of a 32-bit value.
pub open spec fn le32_bytes(v: int) -> Seq<u8> {
    seq![
        (v % 256) as u8,
        ((v / 256) % 256) as u8,
        ((v / 65536) % 256) as u8,
        ((v / 16777216) % 256) as u8,
    ]
}

/// The fixed nine-byte binary out-of-band frame that switches the link's
/// transmission rate: two magic bytes, a little-endian length, one opcode,
/// and the new rate in little-endian order.
pub open spec fn mode_switch_bytes(baud: int) -> Seq<u8> {
    seq![222u8, 173u8, 5u8, 0u8, 165u8] + le32_bytes(baud)
}

/// Renders a clamped axis value as ASCII decimal bytes.
fn axis_decimal(v: i32) -> (r: Vec<u8>)
    requires
        -128 <= v <= 127,
    ensures
        r@ == decimal_bytes(v as int),
{
    let mut r: Vec<u8> = Vec::new();
    let m: i32 = if v < 0 {
        r.push(45);
        -v
    } else {
        v
    };
    if m >= 100 {
        r.push((48 + m / 100) as u8);
    }
    if m >= 10 {
        r.push((48 + (m / 10) % 10) as u8);
    }
    r.push((48 + m % 10) as u8);
    proof {
        let mi = m as int;
        if mi >= 100 {
            assert(decimal_digits(mi) == decimal_digits(mi / 10).push((48 + mi % 10) as u8));
            assert(decimal_digits(mi / 10) == decimal_digits(mi / 100).push(
                (48 + (mi / 10) % 10) as u8,
            ));
            assert(decimal_digits(mi / 100) == seq![(48 + mi / 100) as u8]);
        } else if mi >= 10 {
            assert(decimal_digits(mi) == decimal_digits(mi / 10).push((48 + mi % 10) as u8));
            assert(decimal_digits(mi / 10) == seq![(48 + mi / 10) as u8]);
            assert(mi / 10 == (mi / 10) % 10);
        }
        assert(r@ =~= decimal_bytes(v as int));
    }
    r
}

/// Builds `km.move(<dx>,<dy>)\r`, clamping both axes to the signed 8-bit
/// range before formatting.
pub fn move_command(x: i32, y: i32) -> (r: Vec<u8>)
    ensures
        r@ == move_command_bytes(x as int, y as int),
{
    let cx: i32 = if x < -128 {
        -128
    } else if x > 127 {
        127
    } else {
        x
    };
    let cy: i32 = if y < -128 {
        -128
    } else if y > 127 {
        127
    } else {
        y
    };
    let mut r: Vec<u8> = vec![107u8, 109, 46, 109, 111, 118, 101, 40];
    let dx = axis_decimal(cx);
    let dy = axis_decimal(cy);
    let mut i: usize = 0;
    while i < dx.len()
        invariant
            i <= dx@.len(),
            r@ == seq![107u8, 109u8, 46u8, 109u8, 111u8, 118u8, 101u8, 40u8] + dx@.take(i as int),
        decreases dx@.len() - i,
    {
        r.push(dx[i]);
        i += 1;
        proof {
            assert(dx@.take(i as int) == dx@.take(i - 1).push(dx@[i - 1]));
        }
    }
    r.push(44);
    let mut j: usize = 0;
    while j < dy.len()
        invariant
            j <= dy@.len(),
            r@ == seq![107u8, 109u8, 46u8, 109u8, 111u8, 118u8, 101u8, 40u8] + dx@ + seq![44u8]
                + dy@.take(j as int),
        decreases dy@.len() - j,
    {
        r.push(dy[j]);
        j += 1;
        proof {
            assert(dy@.take(j as int) == dy@.take(j - 1).push(dy@[j - 1]));
        }
    }
    r.push(41);
    r.push(13);
    proof {
        assert(dx@.take(dx@.len() as int) == dx@);
        assert(dy@.take(dy@.len() as int) == dy@);
        assert(r@ =~= move_command_bytes(x as int, y as int));
    }
    r
}

/// Builds `km.version()\r`.
pub fn version_command() -> (r: Vec<u8>)
    ensures
        r@ == version_command_bytes(),
{
    let r: Vec<u8> = vec![107u8, 109, 46, 118, 101, 114, 115, 105, 111, 110, 40, 41, 13];
    proof {
        assert(r@ =~= version_command_bytes());
    }
    r
}

/// Builds `km.left(1)\r`, the emulated press.
pub fn press_command() -> (r: Vec<u8>)
    ensures
        r@ == press_command_bytes(),
{
    let r: Vec<u8> = vec![107u8, 109, 46, 108, 101, 102, 116, 40, 49, 41, 13];
    proof {
        assert(r@ =~= press_command_bytes());
    }
    r
}

/// Builds `km.left(0)\r`, the emulated release.
pub fn release_command() -> (r: Vec<u8>)
    ensures
        r@ == release_command_bytes(),
{
    let r: Vec<u8> = vec![107u8, 109, 46, 108, 101, 102, 116, 40, 48, 41, 13];
    proof {
        assert(r@ =~= release_command_bytes());
    }
    r
}

/// Builds `km.lock_ml(1)\r` or `km.lock_ml(0)\r`, engaging or releasing the
/// primary-button lock.
pub fn lock_ml_command(engage: bool) -> (r: Vec<u8>)
    ensures
        r@ == lock_ml_command_bytes(engage),
{
    let digit: u8 = if engage {
        49
    } else {
        48
    };
    let r: Vec<u8> = vec![107u8, 109, 46, 108, 111, 99, 107, 95, 109, 108, 40, digit, 41, 13];
    proof {
        assert(r@ =~= lock_ml_command_bytes(engage));
    }
    r
}

/// Builds `km.lock_ms1(1)\r` or `km.lock_ms1(0)\r`, engaging or releasing the
/// secondary-button lock.
pub fn lock_ms1_command(engage: bool) -> (r: Vec<u8>)
    ensures
        r@ == lock_ms1_command_bytes(engage),
{
    let digit: u8 = if engage {
        49
    } else {
        48
    };
    let r: Vec<u8> = vec![107u8, 109, 46, 108, 111, 99, 107, 95, 109, 115, 49, 40, digit, 41, 13];
    proof {
        assert(r@ =~= lock_ms1_command_bytes(engage));
    }
    r
}

/// Builds `km.buttons(1)\r`, which asks the device to report button state.
pub fn buttons_command() -> (r: Vec<u8>)
    ensures
        r@ == buttons_command_bytes(),
{
    let r: Vec<u8> = vec![107u8, 109, 46, 98, 117, 116, 116, 111, 110, 115, 40, 49, 41, 13];
    proof {
        assert(r@ =~= buttons_command_bytes());
    }
    r
}

/// Builds the nine-byte binary mode-switch frame for a new transmission rate.
pub fn mode_switch_frame(baud: u32) -> (r: Vec<u8>)
    ensures
        r@ == mode_switch_bytes(baud as int),
{
    let b0: u8 = (baud % 256) as u8;
    let b1: u8 = ((baud / 256) % 256) as u8;
    let b2: u8 = ((baud / 65536) % 256) as u8;
    let b3: u8 = ((baud / 16777216) % 256) as u8;
    let r: Vec<u8> = vec![222u8, 173, 5, 0, 165, b0, b1, b2, b3];
    proof {
        assert(r@ =~= mode_switch_bytes(baud as int));
    }
    r
}

/// Maps one decided device write to its exact wire bytes.
pub open spec fn write_bytes(w: DeviceWrite) -> Seq<u8> {
    match w {
        DeviceWrite::LockPrimary => lock_ml_command_bytes(true),
        DeviceWrite::LockSecondary => lock_ms1_command_bytes(true),
        DeviceWrite::UnlockPrimary => lock_ml_command_bytes(false),
        DeviceWrite::UnlockSecondary => lock_ms1_command_bytes(false),
        DeviceWrite::PressDown => press_command_bytes(),
        DeviceWrite::PressUp => release_command_bytes(),
        DeviceWrite::Move(x, y) => move_command_bytes(x as int, y as int),
    }
}

/// Turns one decided device write into the bytes to send.
pub fn command_bytes(w: &DeviceWrite) -> (r: Vec<u8>)
    ensures
        r@ == write_bytes(*w),
{
    match w {
        DeviceWrite::LockPrimary => lock_ml_command(true),
        DeviceWrite::LockSecondary => lock_ms1_command(true),
        DeviceWrite::UnlockPrimary => lock_ml_command(false),
        DeviceWrite::UnlockSecondary => lock_ms1_command(false),
        DeviceWrite::PressDown => press_command(),
        DeviceWrite::PressUp => release_command(),
        DeviceWrite::Move(x, y) => move_command(*x, *y),
    }
}

/// A transmission rate of the serial link.
pub trait BaudRate {
    /// The rate in bits per second, as a spec-level value.
    spec fn spec_baud() -> int;

    /// The rate in bits per second.
    fn baud_rate() -> (r: u32)
        ensures
            r as int == Self::spec_baud(),
    ;
}

/// The device's power-on transmission rate.
#[derive(Clone, Copy)]
pub struct Normal;

/// The elevated transmission rate entered through the mode-switch frame.
#[derive(Clone, Copy)]
pub struct HighSpeed;

impl BaudRate for Normal {
    open spec fn spec_baud() -> int {
        115200
    }

    fn baud_rate() -> (r: u32) {
        115200
    }
}

impl BaudRate for HighSpeed {
    open spec fn spec_baud() -> int {
        4000000
    }

    fn baud_rate() -> (r: u32) {
        4000000
    }
}

} // verus!
