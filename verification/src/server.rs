//! Decision logic of the network-facing server loops.
//!
//! The discovery handshake answers a fixed plaintext token; anything else
//! is ignored silently, so malformed input never gets a reply. The wheel
//! monitor watches the broadcast telegram cell and, on the wheel gesture,
//! releases the emulated press and unlocks the primary button.

use vstd::prelude::*;

use crate::commands::DeviceWrite;
use crate::emulator::telegram_wheel;

verus! {

/// The literal discovery token a client sends.
pub open spec fn client_hello_bytes() -> Seq<u8> {
    seq![
        98u8, 114u8, 105u8, 100u8, 103u8, 101u8, 45u8, 99u8, 108u8, 105u8, 101u8, 110u8, 116u8,
        45u8, 114u8, 101u8, 113u8, 117u8, 101u8, 115u8, 116u8,
    ]
}

/// The literal acknowledgment reply of the discovery handshake, in the
/// variant where the key travels out of band.
pub open spec fn ack_bytes() -> Seq<u8> {
    seq![97u8, 99u8, 107u8]
}

/// Whether a datagram is exactly the discovery token `bridge-client-request`.
pub fn is_client_hello(data: &[u8]) -> (r: bool)
    ensures
        r == (data@ == client_hello_bytes()),
{
    let expected: Vec<u8> = vec![
        98u8, 114, 105, 100, 103, 101, 45, 99, 108, 105, 101, 110, 116, 45, 114, 101, 113, 117,
        101, 115, 116,
    ];
    if data.len() != expected.len() {
        proof {
            assert(data@ != client_hello_bytes());
        }
        return false;
    }
    let mut i: usize = 0;
    while i < expected.len()
        invariant
            i <= expected@.len(),
            data@.len() == expected@.len(),
            expected@ =~= client_hello_bytes(),
            forall|j: int| 0 <= j < i ==> data@[j] == expected@[j],
        decreases expected@.len() - i,
    {
        if data[i] != expected[i] {
            proof {
                assert(data@ != client_hello_bytes());
            }
            return false;
        }
        i += 1;
    }
    proof {
        assert(data@ =~= client_hello_bytes());
    }
    true
}

/// Builds the literal `ack` reply of the discovery handshake.
pub fn ack_reply() -> (r: Vec<u8>)
    ensures
        r@ == ack_bytes(),
{
    let r: Vec<u8> = vec![97u8, 99, 107];
    proof {
        assert(r@ =~= ack_bytes());
    }
    r
}

/// What the wheel monitor issues for one observed telegram: on the wheel
/// gesture, a release and a primary-button unlock, in that order; otherwise
/// nothing.
pub open spec fn spec_wheel_unlock(key: u8) -> Seq<DeviceWrite> {
    if telegram_wheel(key) {
        seq![DeviceWrite::PressUp, DeviceWrite::UnlockPrimary]
    } else {
        Seq::empty()
    }
}

/// Decides the wheel monitor's writes for one observed telegram.
pub fn wheel_unlock_writes(key: u8) -> (w: Vec<DeviceWrite>)
    ensures
        w@ == spec_wheel_unlock(key),
{
    let mut w: Vec<DeviceWrite> = Vec::new();
    if (key / 4) % 2 == 1 {
        w.push(DeviceWrite::PressUp);
        w.push(DeviceWrite::UnlockPrimary);
    }
    proof {
        assert(w@ =~= spec_wheel_unlock(key));
    }
    w
}

} // verus!
