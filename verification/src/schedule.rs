//! Abstract model of the application core's dual-period schedule.
//!
//! One advance of the core is one [`step`] of a [`CoreState`]: the tick
//! counter grows by one, the LED level flips on every 100th tick, a pin
//! write is due on every 100th tick and a bus read on every 500th tick,
//! both judged on the post-increment counter value. [`run`] iterates the
//! step from the initial state; the lemmas below establish the closed
//! forms of a run: after `n` ticks the counter is `n`, the pin has been
//! driven `n / 100` times, the bus has been read `n / 500` times, and the
//! LED is on exactly when the number of completed 100-tick boundaries is
//! odd.

use vstd::arithmetic::div_mod::{lemma_fundamental_div_mod, lemma_fundamental_div_mod_converse};
use vstd::prelude::*;

verus! {

/// Number of ticks between two flips of the LED line.
pub const LED_PERIOD: u64 = 100;

/// Number of ticks between two reads of the bus device.
pub const BUS_PERIOD: u64 = 500;

/// The abstract state of the application core: the tick counter, the LED
/// level, and how often each capability operation has been invoked.
pub struct CoreState {
    /// Ticks advanced so far.
    pub ticks: nat,
    /// Commanded LED level, `true` for on.
    pub led: bool,
    /// Number of pin `set` invocations issued so far.
    pub pin_sets: nat,
    /// Number of bus `read` invocations issued so far.
    pub bus_reads: nat,
}

/// The state of a freshly constructed core: nothing counted, LED off.
pub open spec fn init() -> CoreState {
    CoreState { ticks: 0, led: false, pin_sets: 0, bus_reads: 0 }
}

/// Whether the pin action is due at post-increment tick value `t`.
pub open spec fn led_boundary(t: nat) -> bool {
    t % (LED_PERIOD as nat) == 0
}

/// Whether the bus action is due at post-increment tick value `t`.
pub open spec fn bus_boundary(t: nat) -> bool {
    t % (BUS_PERIOD as nat) == 0
}

/// One fully successful advance of the core from state `s`.
pub open spec fn step(s: CoreState) -> CoreState {
    let t = s.ticks + 1;
    CoreState {
        ticks: t,
        led: if led_boundary(t) {
            !s.led
        } else {
            s.led
        },
        pin_sets: if led_boundary(t) {
            s.pin_sets + 1
        } else {
            s.pin_sets
        },
        bus_reads: if bus_boundary(t) {
            s.bus_reads + 1
        } else {
            s.bus_reads
        },
    }
}

/// The state after `n` fully successful advances from the initial state.
pub open spec fn run(n: nat) -> CoreState
    decreases n,
{
    if n == 0 {
        init()
    } else {
        step(run((n - 1) as nat))
    }
}

/// Every bus boundary is also an LED boundary: the bus period is a whole
/// multiple of the LED period, so on a shared boundary the pin action and
/// the bus action are due on the very same tick.
pub proof fn lemma_bus_boundary_is_led_boundary(t: nat)
    requires
        bus_boundary(t),
    ensures
        led_boundary(t),
{
    lemma_fundamental_div_mod(t as int, BUS_PERIOD as int);
    // 5 is the quotient of the two periods: one bus period spans exactly
    // five LED periods.
    lemma_fundamental_div_mod_converse(
        t as int,
        LED_PERIOD as int,
        5 * (t as int / (BUS_PERIOD as int)),
        0,
    );
}

/// How a quotient grows when the dividend grows by one: it gains one
/// exactly when the new dividend is a multiple of the divisor.
proof fn lemma_div_step(n: nat, d: nat)
    requires
        0 < d,
    ensures
        (n + 1) % d == 0 ==> (n + 1) / d == n / d + 1,
        (n + 1) % d != 0 ==> (n + 1) / d == n / d,
{
    lemma_fundamental_div_mod(n as int + 1, d as int);
    let q = (n as int + 1) / (d as int);
    let r = (n as int + 1) % (d as int);
    if (n + 1) % d == 0 {
        assert(n as int == (q - 1) * (d as int) + (d as int - 1)) by (nonlinear_arith)
            requires
                n as int + 1 == (d as int) * q + r,
                r == 0,
        ;
        lemma_fundamental_div_mod_converse(n as int, d as int, q - 1, d as int - 1);
    } else {
        assert(n as int == q * (d as int) + (r - 1)) by (nonlinear_arith)
            requires
                n as int + 1 == (d as int) * q + r,
        ;
        lemma_fundamental_div_mod_converse(n as int, d as int, q, r - 1);
    }
}

/// After `n` consecutive successful advances the tick counter is exactly
/// `n`, the pin has been invoked once per completed LED period and the bus
/// once per completed bus period.
pub proof fn lemma_run_counts(n: nat)
    ensures
        run(n).ticks == n,
        run(n).pin_sets == n / (LED_PERIOD as nat),
        run(n).bus_reads == n / (BUS_PERIOD as nat),
    decreases n,
{
    if n > 0 {
        lemma_run_counts((n - 1) as nat);
        lemma_div_step((n - 1) as nat, LED_PERIOD as nat);
        lemma_div_step((n - 1) as nat, BUS_PERIOD as nat);
    }
}

/// The LED is on exactly when the number of pin invocations so far is odd:
/// the level flips precisely on the calls that invoke the pin.
pub proof fn lemma_run_led_parity(n: nat)
    ensures
        run(n).led == (run(n).pin_sets % 2 == 1),
    decreases n,
{
    if n > 0 {
        lemma_run_led_parity((n - 1) as nat);
    }
}

/// After `m` completed 100-tick boundaries, all advances successful, the
/// LED is on exactly when `m` is odd.
pub proof fn lemma_led_at_boundary(m: nat)
    ensures
        run(m * (LED_PERIOD as nat)).led == (m % 2 == 1),
{
    let n = m * (LED_PERIOD as nat);
    lemma_run_counts(n);
    lemma_run_led_parity(n);
    lemma_fundamental_div_mod_converse(n as int, LED_PERIOD as int, m as int, 0);
}

/// On a call whose post-increment tick value lies on no boundary, the
/// schedule invokes no capability operation and leaves the LED alone: only
/// the tick counter moves.
proof fn lemma_quiet_step(s: CoreState)
    requires
        !led_boundary(s.ticks + 1),
        !bus_boundary(s.ticks + 1),
    ensures
        step(s) == (CoreState { ticks: s.ticks + 1, ..s }),
{
}

/// On the `n`-th call of a successful run, when `n` is divisible neither
/// by the LED period nor by the bus period, no capability operation is
/// invoked and the LED keeps its level: only the tick counter moves.
pub proof fn lemma_quiet_run(n: nat)
    requires
        0 < n,
        !led_boundary(n),
        !bus_boundary(n),
    ensures
        run(n) == (CoreState { ticks: n, ..run((n - 1) as nat) }),
{
    lemma_run_counts((n - 1) as nat);
    lemma_quiet_step(run((n - 1) as nat));
}

} // verus!
