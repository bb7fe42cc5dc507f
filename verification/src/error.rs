//! Why a window could not be created, and the status codes that say so.

use vstd::prelude::*;

verus! {

/// Status of a build that reached the run loop and came back from it.
pub const STATUS_OK: u8 = 0;

/// Status when no native builder exists for the platform.
pub const STATUS_UNSUPPORTED_PLATFORM: u8 = 1;

/// Status when the title cannot be handed over as a C string.
pub const STATUS_TITLE_CONTAINS_NUL: u8 = 2;

/// The ways in which window creation fails before the run loop is entered.
#[derive(Clone, Copy, Debug, PartialEq, Eq, Structural)]
pub enum WindowError {
    /// No native builder exists for the platform: no window was created.
    UnsupportedPlatform,
    /// The title holds a NUL byte, which a NUL-terminated string cannot carry.
    TitleContainsNul,
}

impl WindowError {
    /// The status code of each error.
    pub open spec fn code(self) -> u8 {
        match self {
            WindowError::UnsupportedPlatform => STATUS_UNSUPPORTED_PLATFORM,
            WindowError::TitleContainsNul => STATUS_TITLE_CONTAINS_NUL,
        }
    }

    /// The status code to report for this error. It is never `STATUS_OK`.
    pub fn status_code(&self) -> (status: u8)
        ensures
            status == self.code(),
            status != STATUS_OK,
    {
        match self {
            WindowError::UnsupportedPlatform => STATUS_UNSUPPORTED_PLATFORM,
            WindowError::TitleContainsNul => STATUS_TITLE_CONTAINS_NUL,
        }
    }
}

} // verus!
