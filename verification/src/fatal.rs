//! Diagnostics with which the shell gives up.

use vstd::prelude::*;
use crate::window::WindowEffect;

verus! {

/// A failure that ends the process. None of them is retried or recovered
/// from: the host prints the diagnostic and stops.
#[derive(Clone, Copy, Debug, PartialEq, Eq, Structural)]
pub enum Fatal {
    /// The file to write could not be created or truncated.
    CreateFailed,
    /// The payload could not be written in full.
    WriteFailed,
    /// The file could not be read, or does not hold UTF-8 text.
    ReadFailed,
    /// The platform did not apply the window effect.
    UnsupportedPlatform { effect: WindowEffect },
}

impl Fatal {
    /// The text of the diagnostic.
    pub open spec fn text(self) -> Seq<char> {
        match self {
            Fatal::CreateFailed => "create failed"@,
            Fatal::WriteFailed => "write failed"@,
            Fatal::ReadFailed => "read failed"@,
            Fatal::UnsupportedPlatform { effect: WindowEffect::Hud } =>
                "Unsupported platform! 'apply_vibrancy' is only supported on macOS"@,
            Fatal::UnsupportedPlatform { effect: WindowEffect::Acrylic { .. } } =>
                "Unsupported platform! 'apply_blur' is only supported on Windows"@,
        }
    }

    /// The diagnostic that the process prints when it ends with this failure.
    pub fn message(self) -> (m: &'static str)
        ensures
            m@ == self.text(),
    {
        match self {
            Fatal::CreateFailed => "create failed",
            Fatal::WriteFailed => "write failed",
            Fatal::ReadFailed => "read failed",
            Fatal::UnsupportedPlatform { effect: WindowEffect::Hud } =>
                "Unsupported platform! 'apply_vibrancy' is only supported on macOS",
            Fatal::UnsupportedPlatform { effect: WindowEffect::Acrylic { .. } } =>
                "Unsupported platform! 'apply_blur' is only supported on Windows",
        }
    }
}

} // verus!
