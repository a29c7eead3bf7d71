//! The systems that the application runs on.
use vstd::prelude::*;

use crate::error::CaptureError;

verus! {

/// The system that this build is for.
#[derive(Debug, Clone, Copy, PartialEq, Eq, Structural)]
pub enum Platform {
    Windows,
    Linux,
    Unsupported,
}

impl Platform {
    /// Whether capture exists for this system.
    pub fn has_backend(self) -> (r: bool)
        ensures
            r == (self == Platform::Windows),
    {
        match self {
            Platform::Windows => true,
            _ => false,
        }
    }

    /// The name of the system.
    pub open spec fn title(self) -> Seq<char> {
        match self {
            Platform::Windows => "Windows"@,
            Platform::Linux => "Linux"@,
            Platform::Unsupported => "unsupported"@,
        }
    }

    /// The name of the system.
    pub fn name(self) -> (r: &'static str)
        ensures
            r@ == self.title(),
    {
        match self {
            Platform::Windows => "Windows",
            Platform::Linux => "Linux",
            Platform::Unsupported => "unsupported",
        }
    }
}

/// Whether a capture backend can be made on this system.
pub fn create_backend(platform: Platform) -> (r: Result<(), CaptureError>)
    ensures
        match r {
            Ok(_) => platform == Platform::Windows,
            Err(error) => platform != Platform::Windows && (error matches CaptureError::Unsupported(
                name,
            ) && name@ == platform.title()),
        },
{
    if platform.has_backend() {
        Ok(())
    } else {
        Err(CaptureError::Unsupported(platform.name().to_owned()))
    }
}

} // verus!
