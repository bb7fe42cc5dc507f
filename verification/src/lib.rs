//! Creation of a native top-level application window.
//!
//! A [`WindowConfig`] describes the window in platform-neutral terms. The
//! dispatcher [`create_window`] picks the native builder for a platform; the
//! macOS builder in [`mac_window`] then names, one at a time and in a fixed
//! order, the native calls that allocate, style, title and show the window
//! and enter the run loop. The caller performs each call and reports back.

pub mod error;
pub mod mac_window;
pub mod title;
pub mod window_config;

pub use crate::error::WindowError;
pub use crate::mac_window::WindowBuild;
pub use crate::window_config::WindowConfig;

use vstd::prelude::*;
use crate::mac_window::BuildModel;
use crate::window_config::macos_attrs;

verus! {

/// The platforms a window may be asked for.
#[derive(Clone, Copy, Debug, PartialEq, Eq, Structural)]
pub enum Platform {
    /// macOS, built through AppKit.
    MacOs,
    /// Any platform without a native builder.
    Unsupported,
}

/// Starts the creation of a window on `platform`.
///
/// On macOS the result is a fresh build of the projected config, with no
/// native call made yet. Everywhere else nothing is built and the error says
/// so: an unsupported platform never looks like success.
pub fn create_window(window_config: &WindowConfig, platform: Platform) -> (started: Result<
    WindowBuild,
    WindowError,
>)
    ensures
        platform == Platform::MacOs <==> started is Ok,
        started matches Ok(build) ==> build@ == BuildModel::fresh(macos_attrs(window_config@)),
        started matches Err(error) ==> error == WindowError::UnsupportedPlatform,
{
    match platform {
        Platform::MacOs => Ok(mac_window::create_window(window_config)),
        Platform::Unsupported => Err(WindowError::UnsupportedPlatform),
    }
}

} // verus!
