//! The macOS window builder.
//!
//! Building a window is a fixed protocol of AppKit calls: obtain the shared
//! application, allocate a window, initialise it with its content rectangle,
//! style mask and backing store, set its title, bring it to the front, and
//! run the application. The builder decides which call comes next and with
//! which arguments; the caller makes the call and tells the builder so.

use vstd::prelude::*;
use crate::error::{WindowError, STATUS_OK, STATUS_TITLE_CONTAINS_NUL};
use crate::title::{c_string_of, c_title, contains_nul, has_nul, title_bytes};
use crate::window_config::{macos_attrs, macos_config, MacosWindowAttrs, MacosWindowConfig, WindowConfig};

verus! {

/// Style bit of a window with a title bar.
pub const NS_WINDOW_TITLED: u32 = 1;

/// Style bit of a window with a close button.
pub const NS_WINDOW_CLOSABLE: u32 = 2;

/// Style bit of a window with a minimise button.
pub const NS_WINDOW_MINIATURIZABLE: u32 = 4;

/// Style bit of a window that the user can resize.
pub const NS_WINDOW_RESIZABLE: u32 = 8;

/// Backing code of a window that renders into a buffer.
pub const NS_BACKING_STORE_BUFFERED: u8 = 2;

/// The contribution of one capability to the style mask.
pub open spec fn flag_bit(enabled: bool, bit: u32) -> u32 {
    if enabled {
        bit
    } else {
        0
    }
}

/// The style mask of a config: the bits of its enabled capabilities, or-ed.
pub open spec fn style_mask_of(attrs: MacosWindowAttrs) -> u32 {
    flag_bit(attrs.has_title, NS_WINDOW_TITLED) | flag_bit(attrs.closable, NS_WINDOW_CLOSABLE)
        | flag_bit(attrs.resizable, NS_WINDOW_RESIZABLE) | flag_bit(
        attrs.minimizable,
        NS_WINDOW_MINIATURIZABLE,
    )
}

/// Computes the style mask that AppKit is given for `config`.
pub fn style_mask(config: &MacosWindowConfig) -> (mask: u32)
    ensures
        mask == style_mask_of(config@),
{
    let titled: u32 = if config.has_title { NS_WINDOW_TITLED } else { 0 };
    let closable: u32 = if config.closable { NS_WINDOW_CLOSABLE } else { 0 };
    let resizable: u32 = if config.resizable { NS_WINDOW_RESIZABLE } else { 0 };
    let miniaturizable: u32 = if config.minimizable { NS_WINDOW_MINIATURIZABLE } else { 0 };
    titled | closable | resizable | miniaturizable
}

/// Each capability owns one bit of the style mask, set exactly when the
/// capability is enabled, and no other bit is ever set. The mask is hence the
/// sum of the enabled capabilities' bits.
pub proof fn lemma_style_mask_bits(attrs: MacosWindowAttrs)
    ensures
        style_mask_of(attrs) & 1 == 1 <==> attrs.has_title,
        style_mask_of(attrs) & 2 == 2 <==> attrs.closable,
        style_mask_of(attrs) & 4 == 4 <==> attrs.minimizable,
        style_mask_of(attrs) & 8 == 8 <==> attrs.resizable,
        style_mask_of(attrs) & !15u32 == 0,
        style_mask_of(attrs) == (if attrs.has_title { 1int } else { 0 })
            + (if attrs.closable { 2int } else { 0 })
            + (if attrs.minimizable { 4int } else { 0 })
            + (if attrs.resizable { 8int } else { 0 }),
{
    let t: u32 = flag_bit(attrs.has_title, NS_WINDOW_TITLED);
    let c: u32 = flag_bit(attrs.closable, NS_WINDOW_CLOSABLE);
    let r: u32 = flag_bit(attrs.resizable, NS_WINDOW_RESIZABLE);
    let m: u32 = flag_bit(attrs.minimizable, NS_WINDOW_MINIATURIZABLE);
    assert((t == 0 || t == 1) && (c == 0 || c == 2) && (r == 0 || r == 8) && (m == 0 || m == 4)
        ==> {
        &&& ((t | c | r | m) & 1 == 1 <==> t == 1)
        &&& ((t | c | r | m) & 2 == 2 <==> c == 2)
        &&& ((t | c | r | m) & 4 == 4 <==> m == 4)
        &&& ((t | c | r | m) & 8 == 8 <==> r == 8)
        &&& (t | c | r | m) & !15u32 == 0
        &&& (t | c | r | m) == t + c + r + m
    }) by (bit_vector);
}

/// How far the window has come.
#[derive(Clone, Copy, Debug, PartialEq, Eq, Structural)]
pub enum BuildState {
    /// No window object exists.
    Unbuilt,
    /// A window object is allocated and not yet initialised.
    Allocated,
    /// The window has its rectangle, style mask and backing store.
    Initialized,
    /// The window has its title.
    Titled,
    /// The window is in front and is the key window.
    Visible,
    /// The run loop was entered.
    Running,
}

/// The content rectangle of a window: its origin, each coordinate as the bit
/// pattern of an `f64`, and its size in pixels.
#[derive(Clone, Copy, Debug, PartialEq, Eq, Structural)]
pub struct ContentRect {
    pub x: u64,
    pub y: u64,
    pub width: u32,
    pub height: u32,
}

/// One call into AppKit, with the arguments it is made with.
#[derive(Debug, PartialEq, Eq)]
pub enum NativeCall {
    /// `[NSApplication sharedApplication]`
    SharedApplication,
    /// `[NSWindow alloc]`
    Alloc,
    /// `initWithContentRect:styleMask:backing:defer:` on the allocated window.
    InitWithContentRect { rect: ContentRect, style_mask: u32, backing: u8, defer: bool },
    /// `setTitle:` with the string made of these NUL-terminated UTF-8 bytes.
    SetTitle { title: Vec<u8> },
    /// `makeKeyAndOrderFront:` with no sender.
    MakeKeyAndOrderFront,
    /// `run` on the shared application; returns when the application ends.
    Run,
}

/// Mathematical content of a [`NativeCall`].
pub enum NativeCallView {
    SharedApplication,
    Alloc,
    InitWithContentRect { rect: ContentRect, style_mask: u32, backing: u8, defer: bool },
    SetTitle { title: Seq<u8> },
    MakeKeyAndOrderFront,
    Run,
}

impl View for NativeCall {
    type V = NativeCallView;

    open spec fn view(&self) -> NativeCallView {
        match *self {
            NativeCall::SharedApplication => NativeCallView::SharedApplication,
            NativeCall::Alloc => NativeCallView::Alloc,
            NativeCall::InitWithContentRect { rect, style_mask, backing, defer } => (
            NativeCallView::InitWithContentRect { rect, style_mask, backing, defer }),
            NativeCall::SetTitle { title } => (NativeCallView::SetTitle { title: title@ }),
            NativeCall::MakeKeyAndOrderFront => NativeCallView::MakeKeyAndOrderFront,
            NativeCall::Run => NativeCallView::Run,
        }
    }
}

/// The place of each call in the protocol, counted from zero.
pub open spec fn call_ordinal(call: NativeCallView) -> nat {
    match call {
        NativeCallView::SharedApplication => 0,
        NativeCallView::Alloc => 1,
        NativeCallView::InitWithContentRect { .. } => 2,
        NativeCallView::SetTitle { .. } => 3,
        NativeCallView::MakeKeyAndOrderFront => 4,
        NativeCallView::Run => 5,
    }
}

/// The number of window calls that lie behind each state.
pub open spec fn state_rank(state: BuildState) -> nat {
    match state {
        BuildState::Unbuilt => 0,
        BuildState::Allocated => 1,
        BuildState::Initialized => 2,
        BuildState::Titled => 3,
        BuildState::Visible => 4,
        BuildState::Running => 5,
    }
}

/// The state that one more window call leads to; `Running` is final.
pub open spec fn next_state(state: BuildState) -> BuildState {
    match state {
        BuildState::Unbuilt => BuildState::Allocated,
        BuildState::Allocated => BuildState::Initialized,
        BuildState::Initialized => BuildState::Titled,
        BuildState::Titled => BuildState::Visible,
        BuildState::Visible => BuildState::Running,
        BuildState::Running => BuildState::Running,
    }
}

/// Mathematical content of a [`WindowBuild`]: the config it builds from, the
/// state of the window, and whether the shared application was obtained.
pub struct BuildModel {
    pub config: MacosWindowAttrs,
    pub state: BuildState,
    pub app_obtained: bool,
}

impl BuildModel {
    /// A build of `config` on which no call has been made.
    pub open spec fn fresh(config: MacosWindowAttrs) -> BuildModel {
        BuildModel { config, state: BuildState::Unbuilt, app_obtained: false }
    }

    /// A window exists only once the shared application was obtained.
    pub open spec fn wf(self) -> bool {
        self.state != BuildState::Unbuilt ==> self.app_obtained
    }

    /// The number of native calls made so far.
    pub open spec fn calls_made(self) -> nat {
        state_rank(self.state) + if self.app_obtained {
            1nat
        } else {
            0nat
        }
    }

    /// The build stands before `setTitle:` with a title that no C string can
    /// carry: it goes no further.
    pub open spec fn title_rejected(self) -> bool {
        self.state == BuildState::Initialized && has_nul(title_bytes(self.config.title))
    }

    /// The build has made every call of the protocol.
    pub open spec fn complete(self) -> bool {
        self.app_obtained && self.state == BuildState::Running
    }

    /// The status code of a build that has come to its end: success for a
    /// complete build, the title's error for a rejected title. A build with
    /// a call pending has none yet.
    pub open spec fn status(self) -> Option<u8> {
        if self.complete() {
            Some(STATUS_OK)
        } else if self.title_rejected() {
            Some(STATUS_TITLE_CONTAINS_NUL)
        } else {
            None
        }
    }

    /// The call that comes next, with its arguments; `None` where the build
    /// is complete or the title is rejected.
    pub open spec fn pending_call(self) -> Option<NativeCallView> {
        if !self.app_obtained {
            Some(NativeCallView::SharedApplication)
        } else {
            match self.state {
                BuildState::Unbuilt => Some(NativeCallView::Alloc),
                BuildState::Allocated => Some(
                    NativeCallView::InitWithContentRect {
                        rect: ContentRect {
                            x: self.config.position.0,
                            y: self.config.position.1,
                            width: self.config.width,
                            height: self.config.height,
                        },
                        style_mask: style_mask_of(self.config),
                        backing: self.config.backing,
                        defer: false,
                    },
                ),
                BuildState::Initialized => if has_nul(title_bytes(self.config.title)) {
                    None
                } else {
                    Some(
                        NativeCallView::SetTitle {
                            title: c_string_of(title_bytes(self.config.title)),
                        },
                    )
                },
                BuildState::Titled => Some(NativeCallView::MakeKeyAndOrderFront),
                BuildState::Visible => Some(NativeCallView::Run),
                BuildState::Running => None,
            }
        }
    }

    /// The build after its pending call was made; the build itself where no
    /// call is pending.
    pub open spec fn advanced(self) -> BuildModel {
        if self.pending_call() is None {
            self
        } else if !self.app_obtained {
            BuildModel { app_obtained: true, ..self }
        } else {
            BuildModel { state: next_state(self.state), ..self }
        }
    }

    /// The build after `n` reports that the pending call was made.
    pub open spec fn after(self, n: nat) -> BuildModel
        decreases n,
    {
        if n == 0 {
            self
        } else {
            self.after((n - 1) as nat).advanced()
        }
    }
}

/// A window under construction on macOS.
#[derive(Debug)]
pub struct WindowBuild {
    config: MacosWindowConfig,
    state: BuildState,
    app_obtained: bool,
}

impl View for WindowBuild {
    type V = BuildModel;

    closed spec fn view(&self) -> BuildModel {
        BuildModel { config: self.config@, state: self.state, app_obtained: self.app_obtained }
    }
}

impl WindowBuild {
    #[verifier::type_invariant]
    spec fn well_formed(&self) -> bool {
        self@.wf()
    }

    /// The state of the window.
    pub fn state(&self) -> (state: BuildState)
        ensures
            state == self@.state,
            self@.wf(),
    {
        proof {
            use_type_invariant(self);
        }
        self.state
    }

    /// The config that the window is built from.
    pub fn config(&self) -> (config: &MacosWindowConfig)
        ensures
            config@ == self@.config,
    {
        &self.config
    }

    /// The status code to return once the build has come to its end: 0 when
    /// the run loop was entered and has returned, the title's error code
    /// when the title was refused. `None` while a call is pending.
    pub fn status(&self) -> (status: Option<u8>)
        ensures
            status == self@.status(),
            self@.wf(),
    {
        proof {
            use_type_invariant(self);
        }
        if !self.app_obtained {
            return None;
        }
        match self.state {
            BuildState::Running => Some(STATUS_OK),
            BuildState::Initialized => {
                if contains_nul(self.config.title.as_str().as_bytes()) {
                    Some(STATUS_TITLE_CONTAINS_NUL)
                } else {
                    None
                }
            },
            _ => None,
        }
    }

    /// Names the native call to make next, with its arguments.
    ///
    /// `Ok(None)` says that the protocol is complete: the run loop was
    /// entered and has returned. The one error is a title with a NUL byte,
    /// raised when the initialised window is to get its title.
    pub fn next_call(&self) -> (next: Result<Option<NativeCall>, WindowError>)
        ensures
            self@.wf(),
            match next {
                Ok(Some(call)) => self@.pending_call() == Some(call@),
                Ok(None) => self@.complete(),
                Err(error) => error == WindowError::TitleContainsNul && self@.title_rejected(),
            },
    {
        proof {
            use_type_invariant(self);
        }
        if !self.app_obtained {
            return Ok(Some(NativeCall::SharedApplication));
        }
        match self.state {
            BuildState::Unbuilt => Ok(Some(NativeCall::Alloc)),
            BuildState::Allocated => {
                let rect = ContentRect {
                    x: self.config.position.0,
                    y: self.config.position.1,
                    width: self.config.width,
                    height: self.config.height,
                };
                Ok(
                    Some(
                        NativeCall::InitWithContentRect {
                            rect,
                            style_mask: style_mask(&self.config),
                            backing: self.config.backing,
                            defer: false,
                        },
                    ),
                )
            },
            BuildState::Initialized => match c_title(self.config.title.as_str()) {
                Ok(title) => Ok(Some(NativeCall::SetTitle { title })),
                Err(error) => Err(error),
            },
            BuildState::Titled => Ok(Some(NativeCall::MakeKeyAndOrderFront)),
            BuildState::Visible => Ok(Some(NativeCall::Run)),
            BuildState::Running => Ok(None),
        }
    }

    /// Records that the pending call was made, and says whether there was
    /// one. A complete build, and one whose title is rejected, stay as they
    /// are.
    pub fn advance(&mut self) -> (moved: bool)
        ensures
            final(self)@ == old(self)@.advanced(),
            moved == old(self)@.pending_call().is_some(),
            old(self)@.wf(),
    {
        proof {
            use_type_invariant(&*self);
        }
        if !self.app_obtained {
            self.app_obtained = true;
            return true;
        }
        match self.state {
            BuildState::Unbuilt => {
                self.state = BuildState::Allocated;
                true
            },
            BuildState::Allocated => {
                self.state = BuildState::Initialized;
                true
            },
            BuildState::Initialized => {
                if contains_nul(self.config.title.as_str().as_bytes()) {
                    false
                } else {
                    self.state = BuildState::Titled;
                    true
                }
            },
            BuildState::Titled => {
                self.state = BuildState::Visible;
                true
            },
            BuildState::Visible => {
                self.state = BuildState::Running;
                true
            },
            BuildState::Running => false,
        }
    }
}

/// Starts the macOS build of `config`: projects it to the macOS config and
/// returns a build on which no native call has been made.
pub fn create_window(config: &WindowConfig) -> (build: WindowBuild)
    ensures
        build@ == BuildModel::fresh(macos_attrs(config@)),
{
    WindowBuild { config: macos_config(config), state: BuildState::Unbuilt, app_obtained: false }
}

/// Of a well-formed build exactly one holds: a call is pending, the title is
/// rejected, or the build is complete.
pub proof fn lemma_one_outcome(build: BuildModel)
    requires
        build.wf(),
    ensures
        build.pending_call() is Some || build.title_rejected() || build.complete(),
        !(build.pending_call() is Some && build.title_rejected()),
        !(build.pending_call() is Some && build.complete()),
        !(build.title_rejected() && build.complete()),
{
}

/// Every call is made at its own place in the protocol, and making it moves
/// the build on by exactly that one call: the shared application first, then
/// allocation, initialisation, the title, visibility, and the run loop last.
/// Nothing else changes the build.
pub proof fn lemma_calls_in_order(build: BuildModel)
    requires
        build.wf(),
    ensures
        build.advanced().wf(),
        build.advanced().config == build.config,
        build.pending_call() matches Some(call) ==> call_ordinal(call) == build.calls_made()
            && build.advanced().calls_made() == build.calls_made() + 1,
        build.pending_call() is None ==> build.advanced() == build,
{
}

/// The number of calls that a build of `config` comes to: all six, or the
/// three before the title where the title holds a NUL byte.
pub open spec fn protocol_length(config: MacosWindowAttrs) -> nat {
    if has_nul(title_bytes(config.title)) {
        3
    } else {
        6
    }
}

/// The whole protocol, from a fresh build: as long as calls are left, the
/// call that is pending after `n` reports is the one whose place is `n`, so
/// no call is skipped and none comes before its turn. After `n` reports the
/// build has made `n` calls, the window is in the state that those calls lead
/// to, and the config is the one the build began with. Once the calls are
/// used up nothing is pending and further reports change nothing.
pub proof fn lemma_protocol_from_fresh(config: MacosWindowAttrs, n: nat)
    ensures
        BuildModel::fresh(config).after(n).wf(),
        BuildModel::fresh(config).after(n).config == config,
        n < protocol_length(config) ==> BuildModel::fresh(config).after(n).calls_made() == n && (
        BuildModel::fresh(config).after(n).pending_call() matches Some(call) && call_ordinal(call)
            == n),
        n >= protocol_length(config) ==> BuildModel::fresh(config).after(n).calls_made()
            == protocol_length(config) && BuildModel::fresh(config).after(n).pending_call() is None,
        BuildModel::fresh(config).after(n).calls_made() >= 1 ==> state_rank(
            BuildModel::fresh(config).after(n).state,
        ) == BuildModel::fresh(config).after(n).calls_made() - 1,
    decreases n,
{
    if n > 0 {
        lemma_protocol_from_fresh(config, (n - 1) as nat);
        lemma_calls_in_order(BuildModel::fresh(config).after((n - 1) as nat));
    }
}

/// A title with a NUL byte is never handed over: from a fresh build, however
/// many reports come in, `setTitle:` is never the pending call, the window
/// never gets past its initialisation, and the build is never complete.
pub proof fn lemma_nul_title_never_set(config: MacosWindowAttrs, n: nat)
    requires
        has_nul(title_bytes(config.title)),
    ensures
        !(BuildModel::fresh(config).after(n).pending_call() matches Some(
            NativeCallView::SetTitle { .. },
        )),
        state_rank(BuildModel::fresh(config).after(n).state) <= 2,
        !BuildModel::fresh(config).after(n).complete(),
{
    lemma_protocol_from_fresh(config, n);
}

/// A title without a NUL byte is handed over whole: from a fresh build
/// `setTitle:` is the fourth call, made with the title's bytes and one closing
/// NUL, and the sixth report completes the build.
pub proof fn lemma_title_handed_over(config: MacosWindowAttrs)
    requires
        !has_nul(title_bytes(config.title)),
    ensures
        BuildModel::fresh(config).after(3).pending_call() == Some(
            NativeCallView::SetTitle { title: c_string_of(title_bytes(config.title)) },
        ),
        BuildModel::fresh(config).after(6).complete(),
{
    reveal_with_fuel(BuildModel::after, 7);
}

/// Success is never claimed early: from a fresh build the status is 0 only
/// after all six calls were reported, which a title with a NUL byte never
/// allows, and a build has a status exactly when no call is pending.
pub proof fn lemma_success_means_complete(config: MacosWindowAttrs, n: nat)
    ensures
        BuildModel::fresh(config).after(n).status() == Some(STATUS_OK) <==> n >= 6 && !has_nul(
            title_bytes(config.title),
        ),
        BuildModel::fresh(config).after(n).status() is Some <==> BuildModel::fresh(config).after(
            n,
        ).pending_call() is None,
{
    lemma_protocol_from_fresh(config, n);
    lemma_one_outcome(BuildModel::fresh(config).after(n));
}

} // verus!
