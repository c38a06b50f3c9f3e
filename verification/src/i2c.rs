//! Capability interface for byte-oriented buses.

use vstd::prelude::*;

verus! {

/// An I2C-style bus capability with write, read and combined
/// write-then-read operations.
///
/// The interface gives no atomicity guarantee: a failed `write` may have
/// transmitted part of `bytes`, and after a failed `read` the buffer's
/// contents are backend-defined and must not be relied on. A successful
/// `read` fills the buffer with exactly as many bytes as it held on entry,
/// so the buffer's length never changes.
///
/// Every read request issued, successful or not, appends its device
/// address and byte count to `read_log` (backends keep the log in ghost
/// state, so it costs nothing at run time): the log says exactly how
/// often, and with which requests, the bus was read. The standing promises
/// `infallible` and `always_fails_with` let a caller carry a concrete
/// backend's success or failure behaviour through generic code.
pub trait I2cBus {
    /// The backend's bus-error kind.
    type Error;

    /// The read requests served so far, oldest first: for each, the device
    /// address and the number of bytes asked for.
    spec fn read_log(&self) -> Seq<(u8, nat)>;

    /// Whether this backend promises that every operation succeeds.
    spec fn infallible(&self) -> bool;

    /// The error this backend promises every operation fails with, if it
    /// promises any.
    spec fn always_fails_with(&self) -> Option<Self::Error>;

    /// Transmits `bytes` to the device at `addr`.
    fn write(&mut self, addr: u8, bytes: &[u8]) -> (r: Result<(), Self::Error>)
        ensures
            final(self).read_log() == old(self).read_log(),
            old(self).infallible() ==> r is Ok && final(self).infallible(),
            old(self).always_fails_with() matches Some(e) ==> r == Err::<(), Self::Error>(e)
                && final(self).always_fails_with() == old(self).always_fails_with(),
    ;

    /// Fills `buffer` with exactly `buffer.len()` bytes read from the
    /// device at `addr`.
    fn read(&mut self, addr: u8, buffer: &mut Vec<u8>) -> (r: Result<(), Self::Error>)
        ensures
            final(buffer)@.len() == old(buffer)@.len(),
            final(self).read_log() == old(self).read_log().push((addr, old(buffer)@.len())),
            old(self).infallible() ==> r is Ok && final(self).infallible(),
            old(self).always_fails_with() matches Some(e) ==> r == Err::<(), Self::Error>(e)
                && final(self).always_fails_with() == old(self).always_fails_with(),
    ;

    /// Transmits `bytes` to the device at `addr`, then fills `buffer` from
    /// it only if the write succeeded.
    ///
    /// The default body is the plain two-step sequence; a backend may
    /// override it with a single bus transaction but must keep the error
    /// semantics: a write failure is returned immediately and the read is
    /// never attempted, leaving the buffer untouched.
    fn write_read(&mut self, addr: u8, bytes: &[u8], buffer: &mut Vec<u8>) -> (r: Result<
        (),
        Self::Error,
    >)
        ensures
            final(buffer)@.len() == old(buffer)@.len(),
            r is Ok ==> final(self).read_log() == old(self).read_log().push(
                (addr, old(buffer)@.len()),
            ),
            old(self).infallible() ==> r is Ok && final(self).infallible(),
            old(self).always_fails_with() matches Some(e) ==> r == Err::<(), Self::Error>(e)
                && final(self).always_fails_with() == old(self).always_fails_with(),
    {
        match self.write(addr, bytes) {
            Ok(()) => self.read(addr, buffer),
            Err(e) => Err(e),
        }
    }
}

} // verus!
