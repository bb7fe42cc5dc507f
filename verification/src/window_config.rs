//! The platform-neutral window description and its macOS projection.
//!
//! Coordinates of `position` are carried as the IEEE 754 binary64 bit
//! patterns of the two floating-point values (what `f64::to_bits` gives),
//! so that they pass through the library unchanged and exactly.

use vstd::prelude::*;
use crate::mac_window::NS_BACKING_STORE_BUFFERED;

verus! {

/// Mathematical content of a [`WindowConfig`].
pub struct WindowAttrs {
    pub title: Seq<char>,
    pub width: u32,
    pub height: u32,
    pub position: (u64, u64),
    pub backing: u8,
    pub has_title: bool,
    pub closable: bool,
    pub resizable: bool,
    pub minimizable: bool,
}

/// Mathematical content of a [`MacosWindowConfig`].
pub struct MacosWindowAttrs {
    pub title: Seq<char>,
    pub width: u32,
    pub height: u32,
    pub position: (u64, u64),
    pub backing: u8,
    pub has_title: bool,
    pub closable: bool,
    pub resizable: bool,
    pub minimizable: bool,
}

/// The global window config.
///
/// Nothing is validated here: a zero size or an empty title is handed to the
/// platform layer as it is.
#[derive(Debug)]
pub struct WindowConfig {
    pub title: String,
    pub width: u32,
    pub height: u32,
    /// Origin of the window, each coordinate as the bit pattern of an `f64`.
    pub position: (u64, u64),
    pub backing: u8,
    pub has_title: bool,
    pub closable: bool,
    pub resizable: bool,
    pub minimizable: bool,
}

impl View for WindowConfig {
    type V = WindowAttrs;

    open spec fn view(&self) -> WindowAttrs {
        WindowAttrs {
            title: self.title@,
            width: self.width,
            height: self.height,
            position: self.position,
            backing: self.backing,
            has_title: self.has_title,
            closable: self.closable,
            resizable: self.resizable,
            minimizable: self.minimizable,
        }
    }
}

/// What `WindowConfig::default()` holds: an 800 by 600 buffered window named
/// "My App" at the origin, with every capability switched on.
pub open spec fn default_attrs() -> WindowAttrs {
    WindowAttrs {
        title: "My App"@,
        width: 800,
        height: 600,
        position: (0, 0),
        backing: 2,
        has_title: true,
        closable: true,
        resizable: true,
        minimizable: true,
    }
}

/// Default values for the window config.
impl Default for WindowConfig {
    fn default() -> (config: Self)
        ensures
            config@ == default_attrs(),
    {
        Self {
            title: "My App".to_owned(),
            width: 800,
            height: 600,
            backing: NS_BACKING_STORE_BUFFERED,
            position: (0, 0),
            has_title: true,
            closable: true,
            resizable: true,
            minimizable: true,
        }
    }
}

/// The system-specific types and parameters for macOS.
#[derive(Debug)]
pub struct MacosWindowConfig {
    pub title: String,
    pub width: u32,
    pub height: u32,
    /// Origin of the content rectangle, each coordinate as the bit pattern of
    /// an `f64`.
    pub position: (u64, u64),
    pub backing: u8,
    pub has_title: bool,
    pub closable: bool,
    pub resizable: bool,
    pub minimizable: bool,
}

impl View for MacosWindowConfig {
    type V = MacosWindowAttrs;

    open spec fn view(&self) -> MacosWindowAttrs {
        MacosWindowAttrs {
            title: self.title@,
            width: self.width,
            height: self.height,
            position: self.position,
            backing: self.backing,
            has_title: self.has_title,
            closable: self.closable,
            resizable: self.resizable,
            minimizable: self.minimizable,
        }
    }
}

/// The macOS projection of a window description: every attribute is taken
/// over under the same name with the same value.
pub open spec fn macos_attrs(attrs: WindowAttrs) -> MacosWindowAttrs {
    MacosWindowAttrs {
        title: attrs.title,
        width: attrs.width,
        height: attrs.height,
        position: attrs.position,
        backing: attrs.backing,
        has_title: attrs.has_title,
        closable: attrs.closable,
        resizable: attrs.resizable,
        minimizable: attrs.minimizable,
    }
}

/// Converts the window config to the system-specific config for macOS.
///
/// This is the one place where a platform may rename or drop an attribute;
/// for macOS nothing changes.
pub fn macos_config(window_config: &WindowConfig) -> (platform: MacosWindowConfig)
    ensures
        platform@ == macos_attrs(window_config@),
{
    MacosWindowConfig {
        title: window_config.title.clone(),
        width: window_config.width,
        height: window_config.height,
        position: window_config.position,
        backing: window_config.backing,
        has_title: window_config.has_title,
        closable: window_config.closable,
        resizable: window_config.resizable,
        minimizable: window_config.minimizable,
    }
}

/// The projection keeps every attribute: each field of the macOS config is
/// the field of the same name of the description it was made from.
pub proof fn lemma_macos_attrs_keeps_fields(attrs: WindowAttrs)
    ensures
        macos_attrs(attrs).title == attrs.title,
        macos_attrs(attrs).width == attrs.width,
        macos_attrs(attrs).height == attrs.height,
        macos_attrs(attrs).position == attrs.position,
        macos_attrs(attrs).backing == attrs.backing,
        macos_attrs(attrs).has_title == attrs.has_title,
        macos_attrs(attrs).closable == attrs.closable,
        macos_attrs(attrs).resizable == attrs.resizable,
        macos_attrs(attrs).minimizable == attrs.minimizable,
{
}

/// The projection depends on the description's content alone: two configs
/// with equal attributes have equal macOS configs, and the projection of one
/// config tells the two apart whenever they differ.
pub proof fn lemma_macos_config_deterministic(a: WindowConfig, b: WindowConfig)
    ensures
        a@ == b@ <==> macos_attrs(a@) == macos_attrs(b@),
{
    if macos_attrs(a@) == macos_attrs(b@) {
        lemma_macos_attrs_keeps_fields(a@);
        lemma_macos_attrs_keeps_fields(b@);
    }
}

} // verus!
