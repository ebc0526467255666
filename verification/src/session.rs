//! Dispatch of client session commands into the emulation layer.
//!
//! A connected client sends typed commands (decoded by the unverified
//! transport shell); each one maps to exactly one transition of the
//! emulation state machine, whose writes and debounce signal the shell then
//! carries out.

use vstd::prelude::*;

use crate::commands::DeviceWrite;
use crate::emulator::{InputEmulator, PendingSignal};

verus! {

/// One typed command of a connected client.
#[derive(Clone, Copy, Debug, PartialEq, Eq, Structural)]
pub enum ClientCommand {
    /// Move the cursor by the given amounts.
    MouseMove(i32, i32),
    /// Engage the physical-button lock.
    Lock,
    /// Release the physical-button lock.
    Unlock,
    /// Arm or clear the pending window.
    Pending(bool),
    /// A down/up pulse when the emulated press is up.
    Click,
}

/// What one client command does to the emulation state, which device
/// writes it issues, and what it asks of the debounce monitor.
pub open spec fn spec_dispatch(s: InputEmulator, cmd: ClientCommand) -> (
    InputEmulator,
    Seq<DeviceWrite>,
    PendingSignal,
) {
    match cmd {
        ClientCommand::MouseMove(x, y) => (s, seq![DeviceWrite::Move(x, y)], PendingSignal::Quiet),
        ClientCommand::Lock => {
            let (s1, w) = InputEmulator::spec_lock(s);
            (s1, w, PendingSignal::Quiet)
        },
        ClientCommand::Unlock => {
            let (s1, w) = InputEmulator::spec_unlock(s);
            (s1, w, PendingSignal::Quiet)
        },
        ClientCommand::Pending(b) => InputEmulator::spec_pending(s, b),
        ClientCommand::Click => (s, InputEmulator::spec_click(s), PendingSignal::Quiet),
    }
}

/// Applies one client command to the emulation state machine.
pub fn dispatch(em: &mut InputEmulator, cmd: &ClientCommand) -> (r: (Vec<DeviceWrite>, PendingSignal))
    ensures
        *final(em) == spec_dispatch(*old(em), *cmd).0,
        r.0@ == spec_dispatch(*old(em), *cmd).1,
        r.1 == spec_dispatch(*old(em), *cmd).2,
{
    match cmd {
        ClientCommand::MouseMove(x, y) => (em.mouse_move(*x, *y), PendingSignal::Quiet),
        ClientCommand::Lock => (em.lock(), PendingSignal::Quiet),
        ClientCommand::Unlock => (em.unlock(), PendingSignal::Quiet),
        ClientCommand::Pending(b) => em.pending(*b),
        ClientCommand::Click => (em.click(), PendingSignal::Quiet),
    }
}

} // verus!
