//! The interrupt-request side of the core: acknowledgement of interrupt
//! lines on the two cascaded controllers, and the timer tick handler that
//! drives periodic preemption.
//!
//! The controllers themselves are hardware; what is modelled and verified
//! here is the decision each handler makes: which controllers must be told
//! that a line was serviced, how the tick counter advances, and exactly when
//! a context switch is due.

use vstd::prelude::*;

verus! {

/// Number of timer ticks between two forced context switches.
pub const CONTEXT_SWITCH_TICKS: u64 = 10;

/// Which of the two cascaded interrupt controllers receive an
/// end-of-interrupt signal for one serviced interrupt.
#[derive(Clone, Copy, Debug, PartialEq, Eq, Structural)]
pub struct AckSignals {
    /// The primary (master) controller is signalled.
    pub primary: bool,
    /// The chained (slave) controller, behind the primary, is signalled.
    pub chained: bool,
}

/// The acknowledgement owed for interrupt line `irq`: lines below 8 belong
/// to the primary controller alone; lines 8 to 15 are routed through the
/// chained controller, which sits behind the primary, so both must be told;
/// lines 16 and above are outside the controllers' range and get nothing.
pub open spec fn ack_signals(irq: u8) -> AckSignals {
    AckSignals {
        primary: irq < 16,
        chained: 8 <= irq && irq < 16,
    }
}

/// Common acknowledgement routine for every device-triggered handler:
/// decides which controllers to signal for interrupt line `irq`.
pub fn acknowledge(irq: u8) -> (r: AckSignals)
    ensures
        r == ack_signals(irq),
{
    if irq < 16 {
        if irq >= 8 {
            AckSignals { primary: true, chained: true }
        } else {
            AckSignals { primary: true, chained: false }
        }
    } else {
        AckSignals { primary: false, chained: false }
    }
}

/// Verified half of the keyboard interrupt handler: the scancode byte is
/// read from the device port by the handler's edge; what the core decides
/// is the acknowledgement owed for the keyboard's fixed line 1.
pub fn keyboard_interrupt() -> (r: AckSignals)
    ensures
        r == ack_signals(1),
{
    acknowledge(1)
}

/// Verified half of the real-time-clock interrupt handler: the clock sits
/// on line 8, behind the chained controller, so both controllers are owed
/// an acknowledgement.
pub fn rtc_interrupt() -> (r: AckSignals)
    ensures
        r == ack_signals(8),
{
    acknowledge(8)
}

/// The kernel-wide tick counter, advanced once per timer interrupt. In the
/// running kernel this is a sequentially consistent atomic shared by all
/// processors; the atomic fetch-add/reset pair is modelled by the single
/// step [`TickCounter::tick`], whose caller holds the counter exclusively.
pub struct TickCounter {
    ticks: u64,
}

/// One step of the tick counter: the successor of the count, except at the
/// threshold, where the counter wraps back to zero.
pub open spec fn next_count(c: int) -> int {
    if c + 1 >= CONTEXT_SWITCH_TICKS as int {
        0
    } else {
        c + 1
    }
}

/// The counter after `n` ticks from boot, with no other mutation.
pub open spec fn count_after(n: nat) -> int
    decreases n,
{
    if n == 0 {
        0
    } else {
        next_count(count_after((n - 1) as nat))
    }
}

/// How many context switches the first `n` ticks have triggered.
pub open spec fn switches_after(n: nat) -> int
    decreases n,
{
    if n == 0 {
        0
    } else {
        switches_after((n - 1) as nat)
            + if count_after((n - 1) as nat) + 1 >= CONTEXT_SWITCH_TICKS as int {
                1int
            } else {
                0int
            }
    }
}

impl TickCounter {
    /// Number of ticks seen since boot or since the last reset.
    pub closed spec fn count_spec(&self) -> u64 {
        self.ticks
    }

    /// Well-formed: the reset at the threshold keeps the counter strictly
    /// below it at every instant outside the tick step itself.
    pub open spec fn inv(&self) -> bool {
        self.count_spec() < CONTEXT_SWITCH_TICKS
    }

    /// The counter as it stands at boot: zero.
    pub fn new() -> (c: TickCounter)
        ensures
            c.count_spec() == 0,
            c.inv(),
    {
        TickCounter { ticks: 0 }
    }

    /// Reads the counter.
    pub fn count(&self) -> (n: u64)
        ensures
            n == self.count_spec(),
    {
        self.ticks
    }

    /// One timer tick: advance the counter by one and read the new value;
    /// at the threshold, reset to zero and report that a switch is due.
    pub fn tick(&mut self) -> (switch: bool)
        requires
            old(self).inv(),
        ensures
            final(self).inv(),
            switch <==> old(self).count_spec() as int + 1 >= CONTEXT_SWITCH_TICKS as int,
            final(self).count_spec() as int == next_count(old(self).count_spec() as int),
    {
        if self.ticks + 1 >= CONTEXT_SWITCH_TICKS {
            self.ticks = 0;
            true
        } else {
            self.ticks = self.ticks + 1;
            false
        }
    }
}

/// What one timer interrupt does beyond advancing the counter.
#[derive(Clone, Copy, Debug, PartialEq, Eq, Structural)]
pub struct TickOutcome {
    /// The acknowledgement sent. The timer is always line 0, so the handler
    /// signals the primary controller directly, skipping the general
    /// routine's dispatch on the kernel's hottest path — and owes exactly
    /// what that routine would owe for line 0.
    pub ack: AckSignals,
    /// A context switch is due: the processor must disable interrupts, ask
    /// its own scheduler to switch, and re-enable interrupts after.
    pub switch: bool,
}

/// The per-tick entry point for the hardware timer: acknowledges the timer
/// line on the primary controller, advances the tick counter, and decides
/// whether this tick reaches the threshold and a context switch is due.
/// Nothing on this path can fail.
pub fn pit_interrupt(ticks: &mut TickCounter) -> (r: TickOutcome)
    requires
        old(ticks).inv(),
    ensures
        final(ticks).inv(),
        r.ack == ack_signals(0),
        r.switch <==> old(ticks).count_spec() as int + 1 >= CONTEXT_SWITCH_TICKS as int,
        final(ticks).count_spec() as int == next_count(old(ticks).count_spec() as int),
{
    let ack = AckSignals { primary: true, chained: false };
    let switch = ticks.tick();
    TickOutcome { ack, switch }
}

/// Law: with no other mutation of the counter, after `n` timer ticks the
/// counter reads `n` modulo the switch threshold, and exactly `n` divided
/// by the threshold switches have been triggered — one on each tick whose
/// number is a positive multiple of the threshold, and on no other.
pub proof fn lemma_preemption_schedule(n: nat)
    ensures
        count_after(n) == n as int % (CONTEXT_SWITCH_TICKS as int),
        switches_after(n) == n as int / (CONTEXT_SWITCH_TICKS as int),
        n > 0 ==> (count_after((n - 1) as nat) + 1 >= CONTEXT_SWITCH_TICKS as int
            <==> n as int % (CONTEXT_SWITCH_TICKS as int) == 0),
    decreases n,
{
    if n > 0 {
        lemma_preemption_schedule((n - 1) as nat);
    }
}

} // verus!
