//! The mesh of microservices that makes up the vehicle: each logical
//! service has a fixed well-known name and TCP port.

use vstd::prelude::*;

verus! {

/// A logical service of the vehicle's microservice mesh.
#[derive(Clone, Copy, PartialEq, Eq, Structural, Debug)]
pub enum Service {
    DriveCore,
    Logger,
}

impl Service {
    /// The fixed TCP port the service listens on.
    pub fn port(&self) -> (p: u16)
        ensures
            *self == Service::DriveCore ==> p == crate::DRIVE_CORE_PORT,
            *self == Service::Logger ==> p == crate::LOGGER_PORT,
    {
        match *self {
            Service::DriveCore => crate::DRIVE_CORE_PORT,
            Service::Logger => crate::LOGGER_PORT,
        }
    }

    /// The service's name, as used in log output and registry lookups.
    pub fn name(&self) -> (n: &'static str)
        ensures
            *self == Service::DriveCore ==> n@ == "drive-core"@,
            *self == Service::Logger ==> n@ == "logger"@,
    {
        match *self {
            Service::DriveCore => "drive-core",
            Service::Logger => "logger",
        }
    }
}

} // verus!
