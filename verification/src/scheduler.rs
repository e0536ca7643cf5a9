//! The duty-cycle scheduler: one sample-encode-transmit cycle per timer
//! period.
//!
//! The hardware timer's interrupt handler and the cooperative main loop
//! share exactly one boolean "time to work" signal. The handler sets it;
//! the main loop tests and clears it atomically, runs at most one duty
//! cycle when it was set, and parks in a low-power wait otherwise. The
//! signal starts set so the very first pass works immediately instead of
//! waiting out a full period. A pending signal is never dropped, and no
//! more than one cycle is ever granted per set. On the device the
//! test-and-clear must be a hardware-supported atomic exchange; this
//! model captures its decision logic, while the period itself is the
//! hardware timer's affair.
//!
//! The frame counter lives here too: it advances by exactly one after
//! every cycle, whatever became of the frame, so a counter value is
//! never reused within one power cycle. It is not persisted across
//! reboots, so every restart begins again at zero — a known gap kept as
//! observed behaviour.

use vstd::prelude::*;
use crate::frame::{data_up_unconfirmed, frame_of};
use crate::payload::{spec_payload_bytes, EnvironmentalPayload};

verus! {

/// The scheduler's shared state: the signal the interrupt hands to the
/// main loop, and the uplink frame counter.
pub struct Scheduler {
    /// Set by the timer interrupt, consumed once by the main loop.
    pub timer_expired: bool,
    /// Counter of the next frame to send; advances once per duty cycle.
    pub fcnt: u32,
}

/// What a test-and-clear of the signal yields: the cleared state, and
/// whether the cycle was granted.
pub open spec fn spec_take(s: Scheduler) -> (Scheduler, bool) {
    (Scheduler { timer_expired: false, ..s }, s.timer_expired)
}

/// What a timer fire does to the shared state: set the signal, touch
/// nothing else.
pub open spec fn spec_fire(s: Scheduler) -> Scheduler {
    Scheduler { timer_expired: true, ..s }
}

/// What one duty cycle does to the shared state: advance the frame
/// counter by exactly one.
pub open spec fn spec_cycle(s: Scheduler) -> Scheduler
    recommends
        s.fcnt < u32::MAX,
{
    Scheduler { fcnt: (s.fcnt + 1) as u32, ..s }
}

/// The state after `n` consecutive duty cycles.
pub open spec fn spec_cycles(s: Scheduler, n: nat) -> Scheduler
    decreases n,
{
    if n == 0 {
        s
    } else {
        spec_cycle(spec_cycles(s, (n - 1) as nat))
    }
}

impl Scheduler {
    /// The state at startup: the signal already set, so the first pass
    /// of the main loop works at once, and the counter at zero.
    pub fn new() -> (s: Scheduler)
        ensures
            s.timer_expired,
            s.fcnt == 0,
    {
        Scheduler { timer_expired: true, fcnt: 0 }
    }

    /// What the periodic timer's interrupt handler does to the shared
    /// state: set the signal. It does no other work; clearing the
    /// hardware event and re-arming the counter stay with the timer.
    pub fn timer_fired(&mut self)
        ensures
            *final(self) == spec_fire(*old(self)),
    {
        self.timer_expired = true;
    }

    /// Atomically test and clear the signal. The cycle is granted
    /// exactly when the signal was set, and the signal is clear
    /// afterwards either way; the counter is untouched.
    pub fn take_signal(&mut self) -> (run: bool)
        ensures
            *final(self) == spec_take(*old(self)).0,
            run == spec_take(*old(self)).1,
    {
        let run = self.timer_expired;
        self.timer_expired = false;
        run
    }

    /// Run one duty cycle on a sampled reading: build the authenticated
    /// uplink frame under the current counter, then advance the counter
    /// by exactly one. The counter advances whatever becomes of the
    /// frame afterwards; a discarded transmission costs nothing but the
    /// telemetry.
    pub fn run_cycle(
        &mut self,
        reading: &EnvironmentalPayload,
        dev_addr: u32,
        nwk_skey: u128,
        app_skey: u128,
    ) -> (frame: [u8; 27])
        requires
            old(self).fcnt < u32::MAX,
        ensures
            *final(self) == spec_cycle(*old(self)),
            frame@ == frame_of(
                dev_addr,
                old(self).fcnt,
                spec_payload_bytes(*reading),
                nwk_skey,
                app_skey,
            ),
    {
        let frame = data_up_unconfirmed(dev_addr, self.fcnt, reading, nwk_skey, app_skey);
        self.fcnt = self.fcnt + 1;
        frame
    }
}

/// One set of the signal grants exactly one duty cycle: with the signal
/// set, the first test-and-clear grants a cycle and the next refuses
/// one, and a fresh timer fire grants exactly one more.
pub proof fn lemma_one_cycle_per_fire(s: Scheduler)
    requires
        s.timer_expired,
    ensures
        spec_take(s).1,
        !spec_take(spec_take(s).0).1,
        spec_take(spec_fire(spec_take(s).0)).1,
        !spec_take(spec_take(spec_fire(spec_take(s).0)).0).1,
{
}

/// Frame counters are never reused: across any run of consecutive duty
/// cycles that stays within the counter's range, the counter a cycle
/// starts from — the one handed to the frame builder — is the initial
/// counter plus the number of cycles already run, so it strictly
/// increases from cycle to cycle.
pub proof fn lemma_counter_monotonic(s: Scheduler, n: nat)
    requires
        s.fcnt + n <= u32::MAX,
    ensures
        forall|i: nat| i <= n ==> (#[trigger] spec_cycles(s, i)).fcnt == s.fcnt + i,
        forall|i: nat, j: nat|
            i < j <= n ==> (#[trigger] spec_cycles(s, i)).fcnt < (#[trigger] spec_cycles(
                s,
                j,
            )).fcnt,
    decreases n,
{
    if n == 0 {
        assert(spec_cycles(s, 0) == s);
    } else {
        lemma_counter_monotonic(s, (n - 1) as nat);
        assert(spec_cycles(s, (n - 1) as nat).fcnt == s.fcnt + n - 1);
        assert(spec_cycles(s, n) == spec_cycle(spec_cycles(s, (n - 1) as nat)));
    }
}

} // verus!
