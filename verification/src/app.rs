//! The backend-agnostic application core.
//!
//! [`App`] owns one output-pin capability and one bus capability and
//! exposes a single advancing operation, [`App::tick`]. Each call advances
//! the abstract schedule of [`crate::schedule`] by exactly one [`step`]:
//! the tick counter always grows by one, the LED level flips and the pin
//! is driven on every 100th tick, and a fixed 4-byte read is issued on the
//! bus on every 500th tick, both boundaries judged on the post-increment
//! counter. A capability failure is surfaced on the same call, wrapped in
//! [`AppError`] with the leaf error carried verbatim; the counter
//! increment is never rolled back, and a pin failure on a shared boundary
//! suppresses the bus read of that call entirely.

use crate::error::{AppError, GpioError, I2cError};
use crate::gpio::OutputPin;
use crate::i2c::I2cBus;
use crate::schedule::{
    bus_boundary, init, led_boundary, lemma_bus_boundary_is_led_boundary, step, CoreState,
    BUS_PERIOD, LED_PERIOD,
};
use vstd::prelude::*;

verus! {

/// Bus address of the fixed device polled by the schedule.
pub const SENSOR_ADDR: u8 = 0x48;

/// Size in bytes of the fixed read request issued on each bus boundary.
pub const SENSOR_READ_LEN: usize = 4;

/// The application core, generic over one output-pin backend and one bus
/// backend, which it owns exclusively for its whole lifetime.
pub struct App<PIN, I2C> {
    pin: PIN,
    i2c: I2C,
    tick_count: u64,
    led_state: bool,
    pin_sets: Ghost<nat>,
    bus_reads: Ghost<nat>,
}

impl<PIN: OutputPin<Error = GpioError>, I2C: I2cBus<Error = I2cError>> App<PIN, I2C> {
    /// The abstract schedule state this core has reached: its tick
    /// counter, its LED level, and how many pin and bus operations it has
    /// invoked on its capabilities so far.
    pub closed spec fn model(&self) -> CoreState {
        CoreState {
            ticks: self.tick_count as nat,
            led: self.led_state,
            pin_sets: self.pin_sets@,
            bus_reads: self.bus_reads@,
        }
    }

    /// The pin capability instance the core owns.
    pub closed spec fn spec_pin(&self) -> PIN {
        self.pin
    }

    /// The bus capability instance the core owns.
    pub closed spec fn spec_bus(&self) -> I2C {
        self.i2c
    }

    /// Creates a core that owns the two given capability instances, with
    /// the tick counter at zero and the LED considered off.
    pub fn new(pin: PIN, i2c: I2C) -> (app: Self)
        ensures
            app.model() == init(),
            app.spec_pin() == pin,
            app.spec_bus() == i2c,
    {
        Self {
            pin,
            i2c,
            tick_count: 0,
            led_state: false,
            pin_sets: Ghost(0),
            bus_reads: Ghost(0),
        }
    }

    /// Advances the schedule by one tick.
    ///
    /// The tick counter grows by one even when a capability fails. On a
    /// 100-tick boundary the LED level flips and the pin is driven to the
    /// new level; a pin failure returns at once, wrapped, and suppresses
    /// the bus action of this call. On a 500-tick boundary, after the pin
    /// action completed, one 4-byte read is issued at the fixed device
    /// address; a bus failure returns at once, wrapped. Off every
    /// boundary no capability is invoked and the call cannot fail.
    ///
    /// The contract pins the invocations themselves through the traits'
    /// ghost logs: a boundary call appends exactly one command, the new
    /// LED level, to the pin's `set_log`, and every attempted read appends
    /// the fixed request to the bus's `read_log`. A backend that promises
    /// success (`infallible`) cannot make the call fail; one that promises
    /// a fixed error (`always_fails_with`) determines the call's result on
    /// its boundary, wrapped verbatim.
    pub fn tick(&mut self) -> (r: Result<(), AppError>)
        requires
            old(self).model().ticks < u64::MAX,
        ensures
            final(self).model().ticks == old(self).model().ticks + 1,
            r is Ok ==> final(self).model() == step(old(self).model()),
            r matches Err(AppError::FromBus(_)) ==> final(self).model() == step(
                old(self).model(),
            ) && bus_boundary(old(self).model().ticks + 1),
            r matches Err(AppError::FromPin(_)) ==> final(self).model() == (CoreState {
                bus_reads: old(self).model().bus_reads,
                ..step(old(self).model())
            }) && led_boundary(old(self).model().ticks + 1) && final(self).spec_bus() == old(
                self,
            ).spec_bus(),
            !led_boundary(old(self).model().ticks + 1) ==> r is Ok && final(self).spec_pin()
                == old(self).spec_pin(),
            !bus_boundary(old(self).model().ticks + 1) ==> final(self).spec_bus() == old(
                self,
            ).spec_bus(),
            led_boundary(old(self).model().ticks + 1) && !(r matches Err(AppError::FromPin(_)))
                ==> final(self).spec_pin().pin_state() == final(self).model().led,
            led_boundary(old(self).model().ticks + 1) ==> final(self).spec_pin().set_log()
                == old(self).spec_pin().set_log().push(final(self).model().led),
            r is Ok && bus_boundary(old(self).model().ticks + 1)
                ==> final(self).spec_bus().read_log() == old(self).spec_bus().read_log().push(
                (SENSOR_ADDR, SENSOR_READ_LEN as nat),
            ),
            r matches Err(AppError::FromBus(_)) ==> final(self).spec_bus().read_log() == old(
                self,
            ).spec_bus().read_log().push((SENSOR_ADDR, SENSOR_READ_LEN as nat)),
            old(self).spec_pin().infallible() ==> !(r matches Err(AppError::FromPin(_)))
                && final(self).spec_pin().infallible(),
            old(self).spec_bus().infallible() ==> !(r matches Err(AppError::FromBus(_)))
                && final(self).spec_bus().infallible(),
            old(self).spec_pin().infallible() && old(self).spec_bus().infallible() ==> r is Ok,
            old(self).spec_pin().always_fails_with() matches Some(e) ==> led_boundary(
                old(self).model().ticks + 1,
            ) ==> r == Err::<(), AppError>(AppError::FromPin(e)) && final(self).spec_pin().always_fails_with()
                == old(self).spec_pin().always_fails_with(),
            old(self).spec_bus().always_fails_with() matches Some(e) ==> old(
                self,
            ).spec_pin().infallible() && bus_boundary(old(self).model().ticks + 1) ==> r == Err::<(), AppError>(
                AppError::FromBus(e),
            ) && final(self).spec_bus().always_fails_with() == old(
                self,
            ).spec_bus().always_fails_with(),
    {
        let t: u64 = self.tick_count + 1;
        self.tick_count = t;
        if t % LED_PERIOD == 0 {
            self.led_state = !self.led_state;
            let level = self.led_state;
            self.pin_sets = Ghost(self.pin_sets@ + 1);
            match self.pin.set(level) {
                Ok(()) => {},
                Err(e) => {
                    return Err(AppError::from(e));
                },
            }
            if t % BUS_PERIOD == 0 {
                self.bus_reads = Ghost(self.bus_reads@ + 1);
                let mut buffer: Vec<u8> = Vec::new();
                while buffer.len() < SENSOR_READ_LEN
                    invariant
                        buffer@.len() <= SENSOR_READ_LEN,
                    decreases SENSOR_READ_LEN - buffer@.len(),
                {
                    buffer.push(0);
                }
                match self.i2c.read(SENSOR_ADDR, &mut buffer) {
                    Ok(()) => {},
                    Err(e) => {
                        return Err(AppError::from(e));
                    },
                }
            }
        } else {
            // A bus boundary never falls between LED boundaries, so off an
            // LED boundary nothing at all is due on this call.
            proof {
                if bus_boundary(t as nat) {
                    lemma_bus_boundary_is_led_boundary(t as nat);
                }
            }
        }
        Ok(())
    }

    /// The number of advance calls made so far, successful or failing.
    pub fn tick_count(&self) -> (r: u64)
        ensures
            r == self.model().ticks,
    {
        self.tick_count
    }

    /// The LED level the schedule has commanded most recently, `true` for
    /// on; starts off.
    pub fn led_state(&self) -> (r: bool)
        ensures
            r == self.model().led,
    {
        self.led_state
    }

    /// Borrows the owned pin capability, for observation.
    pub fn pin(&self) -> (r: &PIN)
        ensures
            *r == self.spec_pin(),
    {
        &self.pin
    }

    /// Borrows the owned bus capability, for observation.
    pub fn bus(&self) -> (r: &I2C)
        ensures
            *r == self.spec_bus(),
    {
        &self.i2c
    }
}

} // verus!
