//! The SBI surface: extension and function ids, error codes, and the
//! HSM state codes, as the supervisor sees them in its argument
//! registers.

use vstd::prelude::*;

verus! {

/// Extension id of the Hart State Management extension.
pub const EID_HSM: usize = 0x48534D;

/// HSM function id: start a stopped hart.
pub const FID_HART_START: usize = 0;

/// HSM function id: stop the calling hart.
pub const FID_HART_STOP: usize = 1;

/// HSM function id: read a hart's state.
pub const FID_HART_GET_STATUS: usize = 2;

/// HSM function id: suspend the calling hart.
pub const FID_HART_SUSPEND: usize = 3;

/// Suspend type meaning the hart keeps no state and re-enters through a
/// fresh start record.
pub const SUSPEND_NON_RETENTIVE: usize = 0x8000_0000;

/// Suspend type meaning the hart resumes at the same point on wake.
pub const SUSPEND_RETENTIVE: usize = 0;

/// HSM state code: started.
pub const HSM_STATE_STARTED: usize = 0;

/// HSM state code: stopped.
pub const HSM_STATE_STOPPED: usize = 1;

/// HSM state code: start pending.
pub const HSM_STATE_START_PENDING: usize = 2;

/// HSM state code: suspended.
pub const HSM_STATE_SUSPENDED: usize = 4;

/// HSM state code: suspend pending.
pub const HSM_STATE_SUSPEND_PENDING: usize = 5;

/// An SBI error, returned to the supervisor in its first argument
/// register as a negative machine word.
#[derive(Clone, Copy, Debug, PartialEq, Eq, Structural)]
pub enum SbiError {
    Failed,
    NotSupported,
    InvalidParam,
    Denied,
    InvalidAddress,
    AlreadyAvailable,
}

impl SbiError {
    /// The two's-complement register image of this error.
    pub open spec fn spec_code(&self) -> usize {
        match *self {
            SbiError::Failed => usize::MAX,
            SbiError::NotSupported => (usize::MAX - 1) as usize,
            SbiError::InvalidParam => (usize::MAX - 2) as usize,
            SbiError::Denied => (usize::MAX - 3) as usize,
            SbiError::InvalidAddress => (usize::MAX - 4) as usize,
            SbiError::AlreadyAvailable => (usize::MAX - 5) as usize,
        }
    }

    /// Encodes the error for the supervisor's first argument register.
    pub fn code(&self) -> (r: usize)
        ensures
            r == self.spec_code(),
    {
        match *self {
            SbiError::Failed => usize::MAX,
            SbiError::NotSupported => usize::MAX - 1,
            SbiError::InvalidParam => usize::MAX - 2,
            SbiError::Denied => usize::MAX - 3,
            SbiError::InvalidAddress => usize::MAX - 4,
            SbiError::AlreadyAvailable => usize::MAX - 5,
        }
    }
}

/// The register value meaning success.
pub const SBI_SUCCESS: usize = 0;

} // verus!
