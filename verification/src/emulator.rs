//! The input emulation state machine.
//!
//! The machine reconciles three signal sources — physical button telegrams,
//! user-issued lock/pending commands, and emulated press commands — into one
//! idempotent stream of device writes. Every transition is modelled by a spec
//! function from the old state to the new state and the exact ordered writes
//! it issues; the executable methods are proved to follow that model, which
//! is what protects the device link from redundant writes.

use vstd::prelude::*;

use crate::commands::DeviceWrite;

verus! {

/// Length of the debounce window in milliseconds: a pending window with no
/// keep-alive for this long expires and control reverts automatically.
pub const DEBOUNCE_MS: u64 = 100;

/// What a `pending` transition asks of the debounce monitor.
#[derive(Clone, Copy, Debug, PartialEq, Eq, Structural)]
pub enum PendingSignal {
    /// Nothing to do.
    Quiet,
    /// Start a fresh debounce window.
    Arm,
    /// Restart the running window (a keep-alive, not a new arm).
    KeepAlive,
    /// Stop the running window.
    Disarm,
}

/// The four independent flags of the emulation layer.
///
/// `current_press` mirrors what the device was last told to do and is the
/// sole idempotency guard: it changes only through `press` and `release`,
/// which are no-ops when the device is already in the requested state.
/// `user_press` is the last observed intent of the physical device.
#[derive(Clone, Copy, Debug, PartialEq, Eq, Structural)]
pub struct InputEmulator {
    /// True once `lock` succeeds, until `unlock`; gates whether physical
    /// button telegrams are honored.
    pub is_locked: bool,
    /// Armed by `pending(true)`, cleared by `pending(false)` or expiry of the
    /// debounce window.
    pub is_pending: bool,
    /// Whether the device was last told the emulated button is down.
    pub current_press: bool,
    /// The last observed logical press intent of the physical device.
    pub user_press: bool,
}

/// Primary-button bit of a telegram byte.
pub open spec fn telegram_primary(key: u8) -> bool {
    key as int % 2 == 1
}

/// Wheel-gesture bit of a telegram byte, the designated wake signal.
pub open spec fn telegram_wheel(key: u8) -> bool {
    (key as int / 4) % 2 == 1
}

/// Secondary-button bit of a telegram byte.
pub open spec fn telegram_secondary(key: u8) -> bool {
    (key as int / 8) % 2 == 1
}

impl InputEmulator {
    /// The initial state: unlocked, not pending, button up.
    pub open spec fn initial() -> InputEmulator {
        InputEmulator { is_locked: false, is_pending: false, current_press: false, user_press: false }
    }

    /// Model of `press`: tell the device the button is down, unless it
    /// already is.
    pub open spec fn spec_press(s: InputEmulator) -> (InputEmulator, Seq<DeviceWrite>) {
        if s.current_press {
            (s, Seq::empty())
        } else {
            (InputEmulator { current_press: true, ..s }, seq![DeviceWrite::PressDown])
        }
    }

    /// Model of `release`: tell the device the button is up, unless it
    /// already is.
    pub open spec fn spec_release(s: InputEmulator) -> (InputEmulator, Seq<DeviceWrite>) {
        if s.current_press {
            (InputEmulator { current_press: false, ..s }, seq![DeviceWrite::PressUp])
        } else {
            (s, Seq::empty())
        }
    }

    /// Model of `sync_current_state`: resynchronize the emulated press to the
    /// last observed physical intent.
    pub open spec fn spec_sync(s: InputEmulator) -> (InputEmulator, Seq<DeviceWrite>) {
        if s.user_press {
            Self::spec_press(s)
        } else {
            Self::spec_release(s)
        }
    }

    /// Model of `lock`: on the real transition, lock the primary and the
    /// secondary button, in that order; a no-op when already locked.
    pub open spec fn spec_lock(s: InputEmulator) -> (InputEmulator, Seq<DeviceWrite>) {
        if s.is_locked {
            (s, Seq::empty())
        } else {
            (
                InputEmulator { is_locked: true, ..s },
                seq![DeviceWrite::LockPrimary, DeviceWrite::LockSecondary],
            )
        }
    }

    /// Model of `unlock`: on the real transition, unlock both buttons in
    /// order and then force a release; a no-op when already unlocked.
    pub open spec fn spec_unlock(s: InputEmulator) -> (InputEmulator, Seq<DeviceWrite>) {
        if !s.is_locked {
            (s, Seq::empty())
        } else {
            let s1 = InputEmulator { is_locked: false, ..s };
            let (s2, rel) = Self::spec_release(s1);
            (s2, seq![DeviceWrite::UnlockPrimary, DeviceWrite::UnlockSecondary] + rel)
        }
    }

    /// Model of `click`: a down/up pulse toward the device, only when the
    /// emulated press is currently up, so an in-flight press is never
    /// interrupted. The pulse does not move `current_press`.
    pub open spec fn spec_click(s: InputEmulator) -> Seq<DeviceWrite> {
        if s.current_press {
            Seq::empty()
        } else {
            seq![DeviceWrite::PressDown, DeviceWrite::PressUp]
        }
    }

    /// Model of `pending`: arming starts the debounce window, re-arming is a
    /// keep-alive, and clearing (by command or by expiry) resynchronizes the
    /// press state to the physical intent.
    pub open spec fn spec_pending(s: InputEmulator, pending: bool) -> (
        InputEmulator,
        Seq<DeviceWrite>,
        PendingSignal,
    ) {
        if pending {
            if s.is_pending {
                (s, Seq::empty(), PendingSignal::KeepAlive)
            } else {
                (InputEmulator { is_pending: true, ..s }, Seq::empty(), PendingSignal::Arm)
            }
        } else {
            if s.is_pending {
                let (s2, w) = Self::spec_sync(InputEmulator { is_pending: false, ..s });
                (s2, w, PendingSignal::Disarm)
            } else {
                (s, Seq::empty(), PendingSignal::Quiet)
            }
        }
    }

    /// Model of telegram arrival. The observed intent is always recorded;
    /// while unlocked the machine is otherwise a passive observer. While
    /// locked, the wheel gesture forces a resynchronization regardless of the
    /// pending window; otherwise fresh press intent is swallowed while
    /// pending and resynchronized immediately while not pending.
    pub open spec fn spec_on_telegram(s: InputEmulator, key: u8) -> (InputEmulator, Seq<DeviceWrite>) {
        if !s.is_locked {
            (InputEmulator { user_press: telegram_primary(key), ..s }, Seq::empty())
        } else {
            let intent = telegram_primary(key) || telegram_secondary(key);
            let s1 = InputEmulator { user_press: intent, ..s };
            if telegram_wheel(key) {
                Self::spec_sync(s1)
            } else if intent && s1.is_pending {
                (s1, Seq::empty())
            } else {
                Self::spec_sync(s1)
            }
        }
    }

    /// Creates the machine in its initial state.
    pub fn new() -> (r: InputEmulator)
        ensures
            r == Self::initial(),
    {
        InputEmulator { is_locked: false, is_pending: false, current_press: false, user_press: false }
    }

    /// Emulated press toward the device; a no-op when already down.
    pub fn press(&mut self) -> (w: Vec<DeviceWrite>)
        ensures
            *final(self) == Self::spec_press(*old(self)).0,
            w@ == Self::spec_press(*old(self)).1,
    {
        let mut w: Vec<DeviceWrite> = Vec::new();
        if !self.current_press {
            self.current_press = true;
            w.push(DeviceWrite::PressDown);
        }
        proof {
            assert(w@ =~= Self::spec_press(*old(self)).1);
        }
        w
    }

    /// Emulated release toward the device; a no-op when already up.
    pub fn release(&mut self) -> (w: Vec<DeviceWrite>)
        ensures
            *final(self) == Self::spec_release(*old(self)).0,
            w@ == Self::spec_release(*old(self)).1,
    {
        let mut w: Vec<DeviceWrite> = Vec::new();
        if self.current_press {
            self.current_press = false;
            w.push(DeviceWrite::PressUp);
        }
        proof {
            assert(w@ =~= Self::spec_release(*old(self)).1);
        }
        w
    }

    /// Resynchronizes the emulated press to the last observed physical
    /// intent: press when the user holds the button, release otherwise.
    pub fn sync_current_state(&mut self) -> (w: Vec<DeviceWrite>)
        ensures
            *final(self) == Self::spec_sync(*old(self)).0,
            w@ == Self::spec_sync(*old(self)).1,
    {
        if self.user_press {
            self.press()
        } else {
            self.release()
        }
    }

    /// Engages the lock; on the real transition, locks the primary and the
    /// secondary button, in that order.
    pub fn lock(&mut self) -> (w: Vec<DeviceWrite>)
        ensures
            *final(self) == Self::spec_lock(*old(self)).0,
            w@ == Self::spec_lock(*old(self)).1,
    {
        let mut w: Vec<DeviceWrite> = Vec::new();
        if !self.is_locked {
            self.is_locked = true;
            w.push(DeviceWrite::LockPrimary);
            w.push(DeviceWrite::LockSecondary);
        }
        proof {
            assert(w@ =~= Self::spec_lock(*old(self)).1);
        }
        w
    }

    /// Releases the lock; on the real transition, unlocks both buttons in
    /// order and then forces a release.
    pub fn unlock(&mut self) -> (w: Vec<DeviceWrite>)
        ensures
            *final(self) == Self::spec_unlock(*old(self)).0,
            w@ == Self::spec_unlock(*old(self)).1,
    {
        let mut w: Vec<DeviceWrite> = Vec::new();
        if self.is_locked {
            self.is_locked = false;
            w.push(DeviceWrite::UnlockPrimary);
            w.push(DeviceWrite::UnlockSecondary);
            if self.current_press {
                self.current_press = false;
                w.push(DeviceWrite::PressUp);
            }
        }
        proof {
            assert(w@ =~= Self::spec_unlock(*old(self)).1);
        }
        w
    }

    /// A down/up pulse toward the device, only when the emulated press is
    /// currently up. The caller inserts a bounded delay between the two
    /// writes.
    pub fn click(&self) -> (w: Vec<DeviceWrite>)
        ensures
            w@ == Self::spec_click(*self),
    {
        let mut w: Vec<DeviceWrite> = Vec::new();
        if !self.current_press {
            w.push(DeviceWrite::PressDown);
            w.push(DeviceWrite::PressUp);
        }
        proof {
            assert(w@ =~= Self::spec_click(*self));
        }
        w
    }

    /// A cursor movement; the emulation layer forwards it unchanged.
    pub fn mouse_move(&self, x: i32, y: i32) -> (w: Vec<DeviceWrite>)
        ensures
            w@ =~= seq![DeviceWrite::Move(x, y)],
    {
        let mut w: Vec<DeviceWrite> = Vec::new();
        w.push(DeviceWrite::Move(x, y));
        w
    }

    /// Arms, keeps alive or clears the pending window. Clearing (whether by
    /// command or by debounce expiry) resynchronizes the press state.
    pub fn pending(&mut self, pending: bool) -> (r: (Vec<DeviceWrite>, PendingSignal))
        ensures
            *final(self) == Self::spec_pending(*old(self), pending).0,
            r.0@ == Self::spec_pending(*old(self), pending).1,
            r.1 == Self::spec_pending(*old(self), pending).2,
    {
        if pending {
            if self.is_pending {
                (Vec::new(), PendingSignal::KeepAlive)
            } else {
                self.is_pending = true;
                (Vec::new(), PendingSignal::Arm)
            }
        } else {
            if self.is_pending {
                self.is_pending = false;
                let w = self.sync_current_state();
                (w, PendingSignal::Disarm)
            } else {
                (Vec::new(), PendingSignal::Quiet)
            }
        }
    }

    /// Consumes one unsolicited button telegram.
    pub fn on_telegram(&mut self, key: u8) -> (w: Vec<DeviceWrite>)
        ensures
            *final(self) == Self::spec_on_telegram(*old(self), key).0,
            w@ == Self::spec_on_telegram(*old(self), key).1,
    {
        let primary = key % 2 == 1;
        if !self.is_locked {
            self.user_press = primary;
            Vec::new()
        } else {
            let secondary = (key / 8) % 2 == 1;
            let wheel = (key / 4) % 2 == 1;
            let intent = primary || secondary;
            self.user_press = intent;
            if wheel {
                self.sync_current_state()
            } else if intent && self.is_pending {
                Vec::new()
            } else {
                self.sync_current_state()
            }
        }
    }
}

/// The debounce monitor of the pending window: a deadline that `Arm` and
/// `KeepAlive` push to `DEBOUNCE_MS` past the present moment, and that makes
/// the expiry due once the present moment reaches it.
#[derive(Clone, Copy, Debug, PartialEq, Eq, Structural)]
pub struct PendingMonitor {
    /// Whether a window is running.
    pub armed: bool,
    /// The moment, in milliseconds, at which the running window expires.
    pub deadline: u64,
}

impl PendingMonitor {
    /// The monitor at rest.
    pub open spec fn initial() -> PendingMonitor {
        PendingMonitor { armed: false, deadline: 0 }
    }

    /// Model of `apply_signal`.
    pub open spec fn spec_apply(m: PendingMonitor, signal: PendingSignal, now: u64) -> PendingMonitor
        recommends
            now + DEBOUNCE_MS <= u64::MAX,
    {
        match signal {
            PendingSignal::Quiet => m,
            PendingSignal::Arm => PendingMonitor { armed: true, deadline: (now + DEBOUNCE_MS) as u64 },
            PendingSignal::KeepAlive => if m.armed {
                PendingMonitor { armed: true, deadline: (now + DEBOUNCE_MS) as u64 }
            } else {
                m
            },
            PendingSignal::Disarm => PendingMonitor { armed: false, ..m },
        }
    }

    /// Whether the running window has expired at moment `now`.
    pub open spec fn spec_due(m: PendingMonitor, now: u64) -> bool {
        m.armed && now >= m.deadline
    }

    /// Creates the monitor at rest.
    pub fn new() -> (r: PendingMonitor)
        ensures
            r == Self::initial(),
    {
        PendingMonitor { armed: false, deadline: 0 }
    }

    /// Applies one signal of the emulation layer at moment `now`: `Arm`
    /// starts a window, `KeepAlive` restarts a running one, `Disarm` stops
    /// it.
    pub fn apply_signal(&mut self, signal: &PendingSignal, now: u64)
        requires
            now + DEBOUNCE_MS <= u64::MAX,
        ensures
            *final(self) == Self::spec_apply(*old(self), *signal, now),
    {
        match signal {
            PendingSignal::Quiet => (),
            PendingSignal::Arm => {
                self.armed = true;
                self.deadline = now + DEBOUNCE_MS;
            },
            PendingSignal::KeepAlive => {
                if self.armed {
                    self.deadline = now + DEBOUNCE_MS;
                }
            },
            PendingSignal::Disarm => {
                self.armed = false;
            },
        }
    }

    /// Whether the running window has expired at moment `now`. When it has,
    /// the caller disarms the monitor and clears the pending flag of the
    /// emulation layer.
    pub fn due(&self, now: u64) -> (r: bool)
        ensures
            r == Self::spec_due(*self, now),
    {
        self.armed && now >= self.deadline
    }

    /// Stops the running window.
    pub fn disarm(&mut self)
        ensures
            *final(self) == (PendingMonitor { armed: false, ..*old(self) }),
    {
        self.armed = false;
    }
}

/// Pressing is idempotent: from a released state, two consecutive presses
/// issue exactly one device write, and a release after them issues exactly
/// one more; a second press never writes, whatever the starting state.
pub proof fn lemma_press_release_idempotent(s: InputEmulator)
    ensures
        ({
            let (s1, w1) = InputEmulator::spec_press(s);
            let (s2, w2) = InputEmulator::spec_press(s1);
            let (s3, w3) = InputEmulator::spec_release(s2);
            w2 =~= Seq::<DeviceWrite>::empty() && w3 =~= seq![DeviceWrite::PressUp]
                && (!s.current_press ==> w1 =~= seq![DeviceWrite::PressDown]) && !s3.current_press
        }),
{
}

/// A click while the emulated press is down issues no device write; while it
/// is up, it issues exactly one press followed by exactly one release.
pub proof fn lemma_click_pulse(s: InputEmulator)
    ensures
        s.current_press ==> InputEmulator::spec_click(s) =~= Seq::<DeviceWrite>::empty(),
        !s.current_press ==> InputEmulator::spec_click(s) =~= seq![
            DeviceWrite::PressDown,
            DeviceWrite::PressUp,
        ],
{
}

/// The state after a whole sequence of telegrams, oldest first.
pub open spec fn apply_telegrams(s: InputEmulator, keys: Seq<u8>) -> InputEmulator
    decreases keys.len(),
{
    if keys.len() == 0 {
        s
    } else {
        apply_telegrams(InputEmulator::spec_on_telegram(s, keys[0]).0, keys.drop_first())
    }
}

/// A sequence of telegrams never moves the lock or the pending flag.
pub proof fn lemma_telegrams_preserve_flags(s: InputEmulator, keys: Seq<u8>)
    ensures
        apply_telegrams(s, keys).is_locked == s.is_locked,
        apply_telegrams(s, keys).is_pending == s.is_pending,
    decreases keys.len(),
{
    if keys.len() > 0 {
        lemma_telegrams_preserve_flags(InputEmulator::spec_on_telegram(s, keys[0]).0, keys.drop_first());
    }
}

/// Locking from an unlocked state and unlocking later issues exactly:
/// lock-primary, lock-secondary, then unlock-primary, unlock-secondary, then
/// a release when the emulated press is down at that point — in that order,
/// whatever telegram traffic arrives in between.
pub proof fn lemma_lock_unlock_order(s: InputEmulator, keys: Seq<u8>)
    requires
        !s.is_locked,
    ensures
        ({
            let (s1, w_lock) = InputEmulator::spec_lock(s);
            let s2 = apply_telegrams(s1, keys);
            let (s3, w_unlock) = InputEmulator::spec_unlock(s2);
            w_lock =~= seq![DeviceWrite::LockPrimary, DeviceWrite::LockSecondary] && w_unlock =~= (
            seq![DeviceWrite::UnlockPrimary, DeviceWrite::UnlockSecondary] + (
            if s2.current_press {
                seq![DeviceWrite::PressUp]
            } else {
                Seq::<DeviceWrite>::empty()
            })) && !s3.is_locked && !s3.current_press
        }),
{
    let (s1, w_lock) = InputEmulator::spec_lock(s);
    lemma_telegrams_preserve_flags(s1, keys);
}

/// Arming the pending window and hearing nothing for the window's length
/// makes the expiry due, and no earlier; firing the expiry clears the
/// pending flag, resynchronizes exactly once and leaves the monitor at rest,
/// so no second resynchronization can fire.
pub proof fn lemma_debounce_expiry(s: InputEmulator, m: PendingMonitor, t0: u64)
    requires
        !s.is_pending,
        t0 + DEBOUNCE_MS <= u64::MAX,
    ensures
        ({
            let (s1, w1, sig1) = InputEmulator::spec_pending(s, true);
            let m1 = PendingMonitor::spec_apply(m, sig1, t0);
            let (s2, w2, sig2) = InputEmulator::spec_pending(s1, false);
            let m2 = PendingMonitor::spec_apply(m1, sig2, (t0 + DEBOUNCE_MS) as u64);
            sig1 == PendingSignal::Arm && w1 =~= Seq::<DeviceWrite>::empty() && s1.is_pending
                && (forall|t: u64| t < t0 + DEBOUNCE_MS ==> !PendingMonitor::spec_due(m1, t))
                && PendingMonitor::spec_due(m1, (t0 + DEBOUNCE_MS) as u64) && !s2.is_pending && w2
                =~= InputEmulator::spec_sync(InputEmulator { is_pending: false, ..s1 }).1 && (
            forall|t: u64| !PendingMonitor::spec_due(m2, t))
        }),
{
}

/// A keep-alive arriving inside the window restarts it: the expiry is not
/// due at the original window's end, only a full window after the
/// keep-alive.
pub proof fn lemma_debounce_keep_alive(s: InputEmulator, m: PendingMonitor, t0: u64, t1: u64)
    requires
        !s.is_pending,
        t0 <= t1,
        t1 < t0 + DEBOUNCE_MS,
        t1 + DEBOUNCE_MS <= u64::MAX,
    ensures
        ({
            let (s1, w1, sig1) = InputEmulator::spec_pending(s, true);
            let m1 = PendingMonitor::spec_apply(m, sig1, t0);
            let (s2, w2, sig2) = InputEmulator::spec_pending(s1, true);
            let m2 = PendingMonitor::spec_apply(m1, sig2, t1);
            sig2 == PendingSignal::KeepAlive && w2 =~= Seq::<DeviceWrite>::empty() && s2
                == s1 && (t0 < t1 ==> !PendingMonitor::spec_due(m2, (t0 + DEBOUNCE_MS) as u64))
                && (forall|t: u64| t < t1 + DEBOUNCE_MS ==> !PendingMonitor::spec_due(m2, t))
                && PendingMonitor::spec_due(m2, (t1 + DEBOUNCE_MS) as u64)
        }),
{
}

/// While locked and not pending, a telegram carrying press intent yields
/// `user_press == true` and exactly one press; a following all-clear
/// telegram yields exactly one release.
pub proof fn lemma_locked_telegram_resync(s: InputEmulator, key: u8)
    requires
        s.is_locked,
        !s.is_pending,
        !s.current_press,
        telegram_primary(key) || telegram_secondary(key),
    ensures
        ({
            let (s1, w1) = InputEmulator::spec_on_telegram(s, key);
            let (s2, w2) = InputEmulator::spec_on_telegram(s1, 0);
            s1.user_press && w1 =~= seq![DeviceWrite::PressDown] && !s2.user_press && w2 =~= seq![
                DeviceWrite::PressUp,
            ]
        }),
{
}

} // verus!
