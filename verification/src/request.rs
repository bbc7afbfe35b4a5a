//! Typed tool requests: one variant shape per supported operation.
//!
//! Each shape owns only primitive fields; a value is created for a single
//! call and never outlives it. Decoding raw parameters into these shapes is
//! the host runtime's concern; this crate only builds and validates.

use vstd::prelude::*;

verus! {

/// Raw command passed through to the socket verbatim.
pub struct HyprctlRequest {
    /// Raw command string, e.g. `dispatch exec kitty` or `activewindow`.
    pub command: String,
}

/// Switch to a numbered workspace.
pub struct WorkspaceRequest {
    /// Target workspace number (1-based).
    pub n: usize,
}

/// List monitors.
pub struct MonitorsRequest {
    /// Include inactive monitors.
    pub all: Option<bool>,
}

/// List decorations for windows matching a regex.
pub struct DecorationsRequest {
    /// Window regex.
    pub window_regex: String,
}

/// Dismiss all or a specific amount of notifications.
pub struct DismissNotifyRequest {
    /// Optional number of notifications to dismiss.
    pub amount: Option<usize>,
}

/// Issue a dispatch command.
pub struct DispatchCommandRequest {
    /// Dispatcher and arguments, e.g. `workspace 1` or `exec kitty`.
    pub args: String,
}

/// Read a configuration option.
pub struct OptionNameRequest {
    /// Config option name.
    pub option: String,
}

/// Set a configuration keyword.
pub struct KeywordRequest {
    /// Keyword name.
    pub name: String,
    /// Keyword value.
    pub value: String,
}

/// Send a notification.
pub struct NotifyRequest {
    /// Icon ID used by Hyprland notifications.
    pub icon: i32,
    /// Timeout in milliseconds.
    pub timeout_ms: u32,
    /// Color string, e.g. `rgb(7fd16a)`.
    pub color: String,
    /// Notification message body.
    pub message: String,
}

/// Raw arguments handed to a fixed subcommand.
pub struct RawArgsRequest {
    /// Raw arguments passed to the subcommand.
    pub args: String,
}

/// Reload the configuration.
pub struct ReloadRequest {
    /// If true, run `reload config-only`.
    pub config_only: Option<bool>,
}

/// Read the rolling log.
pub struct RollingLogRequest {
    /// Follow the rolling log stream.
    pub follow: Option<bool>,
}

/// Set the cursor theme and size.
pub struct SetCursorRequest {
    /// Cursor theme name.
    pub theme: String,
    /// Cursor size.
    pub size: u32,
}

/// Set the compositor's error string.
pub struct SetErrorRequest {
    /// Color string.
    pub color: String,
    /// Error message body.
    pub message: String,
}

/// Switch the layout of a keyboard.
pub struct SwitchXkbLayoutRequest {
    /// Keyboard device name.
    pub keyboard: String,
    /// Layout switch command, e.g. `next`.
    pub command: String,
}

/// One inbound tool call: the fixed set of operations this bridge offers,
/// each carrying its typed parameters.
pub enum ToolRequest {
    Hyprctl(HyprctlRequest),
    Workspace(WorkspaceRequest),
    ActiveWindow,
    ActiveWorkspace,
    Animations,
    Binds,
    Clients,
    ConfigErrors,
    CursorPos,
    Decorations(DecorationsRequest),
    DismissNotify(DismissNotifyRequest),
    Dispatch(DispatchCommandRequest),
    GetOption(OptionNameRequest),
    GlobalShortcuts,
    Instances,
    Keyword(KeywordRequest),
    Kill,
    Layers,
    Layouts,
    Monitors(MonitorsRequest),
    Notify(NotifyRequest),
    Output(RawArgsRequest),
    Plugin(RawArgsRequest),
    Reload(ReloadRequest),
    RollingLog(RollingLogRequest),
    SetCursor(SetCursorRequest),
    SetError(SetErrorRequest),
    SetProp(RawArgsRequest),
    GetProp(RawArgsRequest),
    Splash,
    SwitchXkbLayout(SwitchXkbLayoutRequest),
    SystemInfo,
    Version,
    WorkspaceRules,
    Workspaces,
    Hyprpaper(RawArgsRequest),
    Hyprsunset(RawArgsRequest),
}

} // verus!
