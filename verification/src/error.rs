//! Error types of the vehicle control service.

use i2cdev::linux::LinuxI2CError;
use vstd::prelude::*;

verus! {

/// The hardware could not be reached or failed its communication probe
/// at startup; the process must not start serving.
#[derive(Debug)]
pub struct SetupError {
    msg: String,
}

impl SetupError {
    /// The diagnostic message describing what failed.
    pub closed spec fn spec_msg(&self) -> Seq<char> {
        self.msg@
    }

    pub fn new(msg: &str) -> (r: SetupError)
        ensures
            r.spec_msg() == msg@,
    {
        SetupError { msg: msg.to_owned() }
    }

    /// The diagnostic message, for operator-facing output.
    pub fn description(&self) -> (r: &str)
        ensures
            r@ == self.spec_msg(),
    {
        self.msg.as_str()
    }
}

/// An error on the path to the PWM hardware.
#[derive(Debug)]
pub enum I2CError {
    /// The register-level transport failed.
    I2CDevice(LinuxI2CError),
    /// The startup probe failed; the device is unreachable.
    Setup(SetupError),
    /// The owning device no longer exists; the non-owning reference
    /// that was followed is stale.
    ReferenceInvalid,
}

impl From<LinuxI2CError> for I2CError {
    fn from(e: LinuxI2CError) -> (r: Self) {
        I2CError::I2CDevice(e)
    }
}

impl vstd::std_specs::convert::FromSpecImpl<LinuxI2CError> for I2CError {
    open spec fn obeys_from_spec() -> bool {
        true
    }

    open spec fn from_spec(e: LinuxI2CError) -> Self {
        I2CError::I2CDevice(e)
    }
}

impl From<SetupError> for I2CError {
    fn from(e: SetupError) -> (r: Self) {
        I2CError::Setup(e)
    }
}

impl vstd::std_specs::convert::FromSpecImpl<SetupError> for I2CError {
    open spec fn obeys_from_spec() -> bool {
        true
    }

    open spec fn from_spec(e: SetupError) -> Self {
        I2CError::Setup(e)
    }
}

} // verus!
