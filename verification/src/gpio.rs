//! Capability interfaces for digital pins.
//!
//! A backend exposes one digital output line through [`OutputPin`]. The
//! interface is minimal on purpose: the application core never learns the
//! backend's identity, only its abstract ghost state, which every
//! implementation defines for itself: the electrical level `pin_state`,
//! the log `set_log` of levels commanded so far (backends keep it in ghost
//! state, so it costs nothing at run time), and the two standing promises
//! `infallible` and `always_fails_with`, through which a caller can carry
//! a concrete backend's success or failure behaviour through generic code.

use vstd::prelude::*;

verus! {

/// A digital output pin capability.
///
/// Implementations promise that after a successful primitive call the
/// abstract output level equals the requested one. Calling a primitive
/// twice in succession without an intervening failure is therefore
/// idempotent: the observable level is already the requested one. On
/// failure the resulting level is backend-defined and nothing is promised
/// about it. Every primitive call, successful or not, appends the level it
/// commanded to `set_log`: the log says exactly how often, and with which
/// arguments, the backend was invoked.
pub trait OutputPin {
    /// The backend's pin-error kind.
    type Error;

    /// The abstract electrical level of the output line: `true` is high.
    spec fn pin_state(&self) -> bool;

    /// The levels commanded so far, one entry per primitive invocation,
    /// oldest first.
    spec fn set_log(&self) -> Seq<bool>;

    /// Whether this backend promises that every operation succeeds.
    spec fn infallible(&self) -> bool;

    /// The error this backend promises every operation fails with, if it
    /// promises any.
    spec fn always_fails_with(&self) -> Option<Self::Error>;

    /// Drives the line to the high level.
    fn set_high(&mut self) -> (r: Result<(), Self::Error>)
        ensures
            r is Ok ==> final(self).pin_state(),
            final(self).set_log() == old(self).set_log().push(true),
            old(self).infallible() ==> r is Ok && final(self).infallible(),
            old(self).always_fails_with() matches Some(e) ==> r == Err::<(), Self::Error>(e)
                && final(self).always_fails_with() == old(self).always_fails_with(),
    ;

    /// Drives the line to the low level.
    fn set_low(&mut self) -> (r: Result<(), Self::Error>)
        ensures
            r is Ok ==> !final(self).pin_state(),
            final(self).set_log() == old(self).set_log().push(false),
            old(self).infallible() ==> r is Ok && final(self).infallible(),
            old(self).always_fails_with() matches Some(e) ==> r == Err::<(), Self::Error>(e)
                && final(self).always_fails_with() == old(self).always_fails_with(),
    ;

    /// Drives the line to the requested level: high when `high` is `true`.
    ///
    /// The default body is composed purely from the two primitives and
    /// propagates their error unchanged; an implementation may override it
    /// but must preserve that observable behaviour.
    fn set(&mut self, high: bool) -> (r: Result<(), Self::Error>)
        ensures
            r is Ok ==> final(self).pin_state() == high,
            final(self).set_log() == old(self).set_log().push(high),
            old(self).infallible() ==> r is Ok && final(self).infallible(),
            old(self).always_fails_with() matches Some(e) ==> r == Err::<(), Self::Error>(e)
                && final(self).always_fails_with() == old(self).always_fails_with(),
    {
        if high {
            self.set_high()
        } else {
            self.set_low()
        }
    }
}

/// A digital input pin capability.
///
/// Not consumed by the application core; offered for backends that expose
/// readable pins to other peripheral-handling code.
pub trait InputPin {
    /// The backend's pin-error kind.
    type Error;

    /// The abstract electrical level of the input line: `true` is high.
    spec fn pin_state(&self) -> bool;

    /// Reports whether the line is at the high level.
    fn is_high(&self) -> (r: Result<bool, Self::Error>)
        ensures
            r matches Ok(b) ==> b == self.pin_state(),
    ;

    /// Reports whether the line is at the low level.
    fn is_low(&self) -> (r: Result<bool, Self::Error>)
        ensures
            r matches Ok(b) ==> b == !self.pin_state(),
    ;
}

} // verus!
