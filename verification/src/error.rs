//! Error taxonomy for the capability interfaces.
//!
//! Two leaf error kinds, one per peripheral family, and one composite kind
//! that wraps exactly one leaf. Conversion from a leaf into the composite is
//! total, lossless and label-preserving: the composite always carries the
//! precise leaf variant and never synthesizes anything beyond the wrapping.

use vstd::prelude::*;

verus! {

/// Failure of a digital-output (GPIO) operation.
#[derive(Debug, Clone, Copy, PartialEq, Eq, Structural)]
pub enum GpioError {
    /// The requested pin number is not valid on this backend.
    InvalidPin,
    /// The backend could not drive the pin.
    HardwareError,
}

/// Failure of a bus (I2C-style) operation.
#[derive(Debug, Clone, Copy, PartialEq, Eq, Structural)]
pub enum I2cError {
    /// The device address is not valid on this bus.
    InvalidAddress,
    /// The transfer failed on the wire.
    BusError,
    /// The device did not answer in time.
    Timeout,
}

/// The application core's only externally visible error kind: a tagged
/// union over the two leaf kinds, identifying the peripheral family that
/// originated the failure.
#[derive(Debug, Clone, Copy, PartialEq, Eq, Structural)]
pub enum AppError {
    /// A pin capability failed; carries the pin's leaf error verbatim.
    FromPin(GpioError),
    /// A bus capability failed; carries the bus's leaf error verbatim.
    FromBus(I2cError),
}

impl From<GpioError> for AppError {
    fn from(e: GpioError) -> (r: AppError) {
        AppError::FromPin(e)
    }
}

impl vstd::std_specs::convert::FromSpecImpl<GpioError> for AppError {
    open spec fn obeys_from_spec() -> bool {
        true
    }

    open spec fn from_spec(e: GpioError) -> AppError {
        AppError::FromPin(e)
    }
}

impl From<I2cError> for AppError {
    fn from(e: I2cError) -> (r: AppError) {
        AppError::FromBus(e)
    }
}

impl vstd::std_specs::convert::FromSpecImpl<I2cError> for AppError {
    open spec fn obeys_from_spec() -> bool {
        true
    }

    open spec fn from_spec(e: I2cError) -> AppError {
        AppError::FromBus(e)
    }
}

} // verus!
