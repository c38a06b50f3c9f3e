//! Simulated capability backends.
//!
//! [`MockPin`] and [`MockI2c`] implement the capability interfaces in
//! plain memory, so that the application core can be driven on a desktop
//! exactly as on a device. Both are infallible. Each records how often its
//! operations were invoked, as an observable side channel for callers and
//! tests; the counters saturate at their maximum instead of wrapping,
//! while the ghost invocation logs of the traits are kept exactly.
//! Console formatting is deliberately left to the caller.
//!
//! [`FailingPin`] and [`FailingI2c`] are backends whose every operation
//! fails with a chosen leaf error, for exercising the error paths of the
//! core.

use crate::error::{GpioError, I2cError};
use crate::gpio::OutputPin;
use crate::i2c::I2cBus;
use vstd::prelude::*;

verus! {

/// One more invocation on a saturating counter.
pub open spec fn saturating_inc(c: u64) -> u64 {
    if c == u64::MAX {
        c
    } else {
        (c + 1) as u64
    }
}

/// A simulated digital output pin: remembers its number and the level it
/// was last driven to, and counts the primitive invocations it served.
pub struct MockPin {
    pin_number: u8,
    state: bool,
    set_calls: u64,
    log: Ghost<Seq<bool>>,
}

impl MockPin {
    /// The pin number this simulated line was created with.
    pub closed spec fn spec_pin_number(&self) -> u8 {
        self.pin_number
    }

    /// How many primitive pin operations have been served so far.
    pub closed spec fn spec_set_calls(&self) -> u64 {
        self.set_calls
    }

    /// Creates a simulated pin with the given number, at the low level,
    /// with nothing counted yet.
    pub fn new(pin_number: u8) -> (p: Self)
        ensures
            p.spec_pin_number() == pin_number,
            !p.pin_state(),
            p.spec_set_calls() == 0,
            p.set_log() == Seq::<bool>::empty(),
            p.infallible(),
    {
        Self { pin_number, state: false, set_calls: 0, log: Ghost(Seq::empty()) }
    }

    /// The pin number this simulated line was created with.
    pub fn pin_number(&self) -> (r: u8)
        ensures
            r == self.spec_pin_number(),
    {
        self.pin_number
    }

    /// The level the line is currently driven to, `true` for high.
    pub fn state(&self) -> (r: bool)
        ensures
            r == self.pin_state(),
    {
        self.state
    }

    /// How many primitive pin operations have been served so far.
    pub fn set_calls(&self) -> (r: u64)
        ensures
            r == self.spec_set_calls(),
    {
        self.set_calls
    }
}

impl OutputPin for MockPin {
    type Error = GpioError;

    closed spec fn pin_state(&self) -> bool {
        self.state
    }

    closed spec fn set_log(&self) -> Seq<bool> {
        self.log@
    }

    open spec fn infallible(&self) -> bool {
        true
    }

    open spec fn always_fails_with(&self) -> Option<GpioError> {
        None
    }

    fn set_high(&mut self) -> (r: Result<(), GpioError>)
        ensures
            r is Ok,
            final(self).pin_state(),
            final(self).spec_pin_number() == old(self).spec_pin_number(),
            final(self).spec_set_calls() == saturating_inc(old(self).spec_set_calls()),
    {
        self.state = true;
        if self.set_calls < u64::MAX {
            self.set_calls = self.set_calls + 1;
        }
        self.log = Ghost(self.log@.push(true));
        Ok(())
    }

    fn set_low(&mut self) -> (r: Result<(), GpioError>)
        ensures
            r is Ok,
            !final(self).pin_state(),
            final(self).spec_pin_number() == old(self).spec_pin_number(),
            final(self).spec_set_calls() == saturating_inc(old(self).spec_set_calls()),
    {
        self.state = false;
        if self.set_calls < u64::MAX {
            self.set_calls = self.set_calls + 1;
        }
        self.log = Ghost(self.log@.push(false));
        Ok(())
    }

    /// Same observable behaviour as the trait's default body; overridden
    /// so that direct callers know the call succeeds and what it counts.
    fn set(&mut self, high: bool) -> (r: Result<(), GpioError>)
        ensures
            r is Ok,
            final(self).pin_state() == high,
            final(self).spec_pin_number() == old(self).spec_pin_number(),
            final(self).spec_set_calls() == saturating_inc(old(self).spec_set_calls()),
    {
        if high {
            self.set_high()
        } else {
            self.set_low()
        }
    }
}

/// A simulated bus: accepts every transfer, answers reads with `0xFF`
/// bytes, counts the write and read invocations it served, and remembers
/// the device address and byte count of the most recent read request.
pub struct MockI2c {
    write_calls: u64,
    read_calls: u64,
    last_read: Option<(u8, usize)>,
    log: Ghost<Seq<(u8, nat)>>,
}

impl MockI2c {
    /// How many write transfers have been served so far.
    pub closed spec fn spec_write_calls(&self) -> u64 {
        self.write_calls
    }

    /// How many read transfers have been served so far.
    pub closed spec fn spec_read_calls(&self) -> u64 {
        self.read_calls
    }

    /// The device address and byte count of the most recent read request,
    /// or `None` before the first one.
    pub closed spec fn spec_last_read(&self) -> Option<(u8, usize)> {
        self.last_read
    }

    /// Creates a simulated bus with nothing counted yet.
    pub fn new() -> (b: Self)
        ensures
            b.spec_write_calls() == 0,
            b.spec_read_calls() == 0,
            b.spec_last_read() is None,
            b.read_log() == Seq::<(u8, nat)>::empty(),
            b.infallible(),
    {
        Self { write_calls: 0, read_calls: 0, last_read: None, log: Ghost(Seq::empty()) }
    }

    /// How many write transfers have been served so far.
    pub fn write_calls(&self) -> (r: u64)
        ensures
            r == self.spec_write_calls(),
    {
        self.write_calls
    }

    /// How many read transfers have been served so far.
    pub fn read_calls(&self) -> (r: u64)
        ensures
            r == self.spec_read_calls(),
    {
        self.read_calls
    }

    /// The device address and byte count of the most recent read request,
    /// or `None` before the first one.
    pub fn last_read(&self) -> (r: Option<(u8, usize)>)
        ensures
            r == self.spec_last_read(),
    {
        self.last_read
    }
}

impl I2cBus for MockI2c {
    type Error = I2cError;

    closed spec fn read_log(&self) -> Seq<(u8, nat)> {
        self.log@
    }

    open spec fn infallible(&self) -> bool {
        true
    }

    open spec fn always_fails_with(&self) -> Option<I2cError> {
        None
    }

    fn write(&mut self, addr: u8, bytes: &[u8]) -> (r: Result<(), I2cError>)
        ensures
            r is Ok,
            final(self).spec_write_calls() == saturating_inc(old(self).spec_write_calls()),
            final(self).spec_read_calls() == old(self).spec_read_calls(),
            final(self).spec_last_read() == old(self).spec_last_read(),
    {
        if self.write_calls < u64::MAX {
            self.write_calls = self.write_calls + 1;
        }
        Ok(())
    }

    fn read(&mut self, addr: u8, buffer: &mut Vec<u8>) -> (r: Result<(), I2cError>)
        ensures
            r is Ok,
            final(buffer)@ == Seq::new(old(buffer)@.len(), |i: int| 0xFFu8),
            final(self).spec_read_calls() == saturating_inc(old(self).spec_read_calls()),
            final(self).spec_write_calls() == old(self).spec_write_calls(),
            final(self).spec_last_read() == Some((addr, old(buffer)@.len() as usize)),
    {
        let n: usize = buffer.len();
        let mut filled: Vec<u8> = Vec::new();
        while filled.len() < n
            invariant
                filled@.len() <= n,
                filled@ == Seq::new(filled@.len(), |i: int| 0xFFu8),
            decreases n - filled@.len(),
        {
            filled.push(0xFF);
            proof {
                assert(filled@ =~= Seq::new(filled@.len(), |i: int| 0xFFu8));
            }
        }
        proof {
            assert(filled@ =~= Seq::new(old(buffer)@.len(), |i: int| 0xFFu8));
        }
        *buffer = filled;
        if self.read_calls < u64::MAX {
            self.read_calls = self.read_calls + 1;
        }
        self.last_read = Some((addr, n));
        self.log = Ghost(self.log@.push((addr, n as nat)));
        Ok(())
    }

    fn write_read(&mut self, addr: u8, bytes: &[u8], buffer: &mut Vec<u8>) -> (r: Result<
        (),
        I2cError,
    >)
        ensures
            r is Ok,
            final(buffer)@ == Seq::new(old(buffer)@.len(), |i: int| 0xFFu8),
            final(self).spec_write_calls() == saturating_inc(old(self).spec_write_calls()),
            final(self).spec_read_calls() == saturating_inc(old(self).spec_read_calls()),
            final(self).spec_last_read() == Some((addr, old(buffer)@.len() as usize)),
    {
        match self.write(addr, bytes) {
            Ok(()) => self.read(addr, buffer),
            Err(e) => Err(e),
        }
    }
}

/// A pin backend whose every operation fails with a chosen pin error; its
/// line level is always low, as its `pin_state` states publicly.
pub struct FailingPin {
    err: GpioError,
    log: Ghost<Seq<bool>>,
}

impl FailingPin {
    /// The leaf error every operation of this backend returns.
    pub closed spec fn spec_err(&self) -> GpioError {
        self.err
    }

    /// Creates a pin backend that fails every operation with `err`.
    pub fn new(err: GpioError) -> (p: Self)
        ensures
            p.spec_err() == err,
            p.always_fails_with() == Some(err),
            p.set_log() == Seq::<bool>::empty(),
    {
        Self { err, log: Ghost(Seq::empty()) }
    }
}

impl OutputPin for FailingPin {
    type Error = GpioError;

    open spec fn pin_state(&self) -> bool {
        false
    }

    closed spec fn set_log(&self) -> Seq<bool> {
        self.log@
    }

    open spec fn infallible(&self) -> bool {
        false
    }

    closed spec fn always_fails_with(&self) -> Option<GpioError> {
        Some(self.err)
    }

    fn set_high(&mut self) -> (r: Result<(), GpioError>)
        ensures
            r == Err::<(), GpioError>(old(self).spec_err()),
            final(self).spec_err() == old(self).spec_err(),
    {
        self.log = Ghost(self.log@.push(true));
        Err(self.err)
    }

    fn set_low(&mut self) -> (r: Result<(), GpioError>)
        ensures
            r == Err::<(), GpioError>(old(self).spec_err()),
            final(self).spec_err() == old(self).spec_err(),
    {
        self.log = Ghost(self.log@.push(false));
        Err(self.err)
    }

    /// Same observable behaviour as the trait's default body; overridden
    /// so that direct callers know which error the call returns.
    fn set(&mut self, high: bool) -> (r: Result<(), GpioError>)
        ensures
            r == Err::<(), GpioError>(old(self).spec_err()),
            final(self).spec_err() == old(self).spec_err(),
    {
        if high {
            self.set_high()
        } else {
            self.set_low()
        }
    }
}

/// A bus backend whose every operation fails with a chosen bus error and
/// never touches the buffer.
pub struct FailingI2c {
    err: I2cError,
    log: Ghost<Seq<(u8, nat)>>,
}

impl FailingI2c {
    /// The leaf error every operation of this backend returns.
    pub closed spec fn spec_err(&self) -> I2cError {
        self.err
    }

    /// Creates a bus backend that fails every operation with `err`.
    pub fn new(err: I2cError) -> (b: Self)
        ensures
            b.spec_err() == err,
            b.always_fails_with() == Some(err),
            b.read_log() == Seq::<(u8, nat)>::empty(),
    {
        Self { err, log: Ghost(Seq::empty()) }
    }
}

impl I2cBus for FailingI2c {
    type Error = I2cError;

    closed spec fn read_log(&self) -> Seq<(u8, nat)> {
        self.log@
    }

    open spec fn infallible(&self) -> bool {
        false
    }

    closed spec fn always_fails_with(&self) -> Option<I2cError> {
        Some(self.err)
    }

    fn write(&mut self, addr: u8, bytes: &[u8]) -> (r: Result<(), I2cError>)
        ensures
            r == Err::<(), I2cError>(old(self).spec_err()),
            *final(self) == *old(self),
    {
        Err(self.err)
    }

    fn read(&mut self, addr: u8, buffer: &mut Vec<u8>) -> (r: Result<(), I2cError>)
        ensures
            r == Err::<(), I2cError>(old(self).spec_err()),
            final(self).spec_err() == old(self).spec_err(),
            *final(buffer) == *old(buffer),
    {
        self.log = Ghost(self.log@.push((addr, buffer.len() as nat)));
        Err(self.err)
    }

    fn write_read(&mut self, addr: u8, bytes: &[u8], buffer: &mut Vec<u8>) -> (r: Result<
        (),
        I2cError,
    >)
        ensures
            r == Err::<(), I2cError>(old(self).spec_err()),
            *final(self) == *old(self),
            *final(buffer) == *old(buffer),
    {
        Err(self.err)
    }
}

} // verus!
