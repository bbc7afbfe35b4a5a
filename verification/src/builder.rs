//! Command builders: one pure function per tool request shape.
//!
//! Every builder deterministically reduces its request to a single command
//! line `<verb> <args...>` with exactly one space between tokens and no
//! trailing whitespace. No builder performs I/O. The one domain validation
//! rule — a workspace number must be at least 1 — runs here, before any
//! socket activity could take place.

use vstd::prelude::*;

use crate::request::{
    DecorationsRequest, DismissNotifyRequest, DispatchCommandRequest, HyprctlRequest,
    KeywordRequest, MonitorsRequest, NotifyRequest, OptionNameRequest, RawArgsRequest,
    ReloadRequest, RollingLogRequest, SetCursorRequest, SetErrorRequest, SwitchXkbLayoutRequest,
    ToolRequest, WorkspaceRequest,
};
use crate::text::{
    decimal_seq, push_decimal, push_quoted, push_signed_decimal, quoted_seq, signed_decimal_seq,
};

verus! {

/// A request that violates a domain constraint; reported to the caller
/// before any socket activity.
#[derive(Clone, Copy, Debug, PartialEq, Eq, Structural)]
pub enum ValidationError {
    /// The workspace number was 0; workspaces are 1-based.
    WorkspaceOutOfRange,
}

/// The caller-visible description of a validation failure.
pub open spec fn validation_message_seq(e: ValidationError) -> Seq<char> {
    match e {
        ValidationError::WorkspaceOutOfRange => "workspace must be >= 1"@,
    }
}

/// Renders a validation failure as the exact caller-visible text.
pub fn validation_message(e: &ValidationError) -> (r: String)
    ensures
        r@ == validation_message_seq(*e),
{
    match e {
        ValidationError::WorkspaceOutOfRange => String::from_str("workspace must be >= 1"),
    }
}

/// The workspace-switch command for a (1-based) workspace number.
pub open spec fn workspace_command(n: nat) -> Seq<char> {
    "dispatch workspace "@ + decimal_seq(n)
}

/// The monitor-listing command: the short form unless `all` is explicitly
/// true.
pub open spec fn monitors_command(all: Option<bool>) -> Seq<char> {
    if all == Some(true) {
        "monitors all"@
    } else {
        "monitors"@
    }
}

/// The notification-dismissal command: the bare form when no amount is
/// given.
pub open spec fn dismissnotify_command(amount: Option<usize>) -> Seq<char> {
    match amount {
        Some(n) => "dismissnotify "@ + decimal_seq(n as nat),
        None => "dismissnotify"@,
    }
}

/// The notification command: icon, timeout and color stand bare, the
/// free-text message is double-quoted with embedded quotes escaped.
pub open spec fn notify_command(
    icon: int,
    timeout_ms: nat,
    color: Seq<char>,
    message: Seq<char>,
) -> Seq<char> {
    "notify "@ + signed_decimal_seq(icon) + seq![' '] + decimal_seq(timeout_ms) + seq![' ']
        + color + seq![' '] + quoted_seq(message)
}

/// The reload command: `config-only` only when explicitly requested.
pub open spec fn reload_command(config_only: Option<bool>) -> Seq<char> {
    if config_only == Some(true) {
        "reload config-only"@
    } else {
        "reload"@
    }
}

/// The rolling-log command: `-f` only when following was explicitly
/// requested.
pub open spec fn rollinglog_command(follow: Option<bool>) -> Seq<char> {
    if follow == Some(true) {
        "rollinglog -f"@
    } else {
        "rollinglog"@
    }
}

/// The error-banner command: the free-text message is double-quoted.
pub open spec fn seterror_command(color: Seq<char>, message: Seq<char>) -> Seq<char> {
    "seterror "@ + color + seq![' '] + quoted_seq(message)
}

/// The cursor command: theme then size.
pub open spec fn setcursor_command(theme: Seq<char>, size: nat) -> Seq<char> {
    "setcursor "@ + theme + seq![' '] + decimal_seq(size)
}

/// The keyword command: name then value.
pub open spec fn keyword_command(name: Seq<char>, value: Seq<char>) -> Seq<char> {
    "keyword "@ + name + seq![' '] + value
}

/// The layout-switch command: keyboard then switch command.
pub open spec fn switchxkblayout_command(keyboard: Seq<char>, command: Seq<char>) -> Seq<char> {
    "switchxkblayout "@ + keyboard + seq![' '] + command
}

/// Pass-through: the caller's command string is transmitted unmodified.
pub fn hyprctl(req: &HyprctlRequest) -> (r: String)
    ensures
        r@ == req.command@,
{
    req.command.clone()
}

/// Builds the workspace-switch command; a workspace number of 0 fails
/// validation and nothing is built.
pub fn workspace(req: &WorkspaceRequest) -> (r: Result<String, ValidationError>)
    ensures
        req.n >= 1 ==> (r matches Ok(c) && c@ == workspace_command(req.n as nat)),
        req.n == 0 ==> r == Err::<String, ValidationError>(ValidationError::WorkspaceOutOfRange),
{
    if req.n == 0 {
        return Err(ValidationError::WorkspaceOutOfRange);
    }
    let mut out = String::from_str("dispatch workspace ");
    push_decimal(&mut out, req.n as u64);
    Ok(out)
}

/// Builds the monitor-listing command, omitting the `all` qualifier unless
/// it was explicitly set.
pub fn monitors(req: &MonitorsRequest) -> (r: String)
    ensures
        r@ == monitors_command(req.all),
{
    let all = match req.all {
        Some(b) => b,
        None => false,
    };
    if all {
        String::from_str("monitors all")
    } else {
        String::from_str("monitors")
    }
}

/// Builds the notification-dismissal command, omitting the amount when none
/// was given.
pub fn dismissnotify(req: &DismissNotifyRequest) -> (r: String)
    ensures
        r@ == dismissnotify_command(req.amount),
{
    match req.amount {
        Some(n) => {
            let mut out = String::from_str("dismissnotify ");
            push_decimal(&mut out, n as u64);
            out
        },
        None => String::from_str("dismissnotify"),
    }
}

/// Builds the notification command with a quoted message body.
pub fn notify(req: &NotifyRequest) -> (r: String)
    ensures
        r@ == notify_command(req.icon as int, req.timeout_ms as nat, req.color@, req.message@),
{
    let mut out = String::from_str("notify ");
    push_signed_decimal(&mut out, req.icon);
    out.push(' ');
    push_decimal(&mut out, req.timeout_ms as u64);
    out.push(' ');
    out.append(req.color.as_str());
    out.push(' ');
    push_quoted(&mut out, req.message.as_str());
    out
}

/// Builds the reload command, omitting `config-only` unless explicitly set.
pub fn reload(req: &ReloadRequest) -> (r: String)
    ensures
        r@ == reload_command(req.config_only),
{
    let config_only = match req.config_only {
        Some(b) => b,
        None => false,
    };
    if config_only {
        String::from_str("reload config-only")
    } else {
        String::from_str("reload")
    }
}

/// Builds the rolling-log command, omitting `-f` unless explicitly set.
pub fn rollinglog(req: &RollingLogRequest) -> (r: String)
    ensures
        r@ == rollinglog_command(req.follow),
{
    let follow = match req.follow {
        Some(b) => b,
        None => false,
    };
    if follow {
        String::from_str("rollinglog -f")
    } else {
        String::from_str("rollinglog")
    }
}

/// Builds the error-banner command with a quoted message body.
pub fn seterror(req: &SetErrorRequest) -> (r: String)
    ensures
        r@ == seterror_command(req.color@, req.message@),
{
    let mut out = String::from_str("seterror ");
    out.append(req.color.as_str());
    out.push(' ');
    push_quoted(&mut out, req.message.as_str());
    out
}

/// Builds the cursor command.
pub fn setcursor(req: &SetCursorRequest) -> (r: String)
    ensures
        r@ == setcursor_command(req.theme@, req.size as nat),
{
    let mut out = String::from_str("setcursor ");
    out.append(req.theme.as_str());
    out.push(' ');
    push_decimal(&mut out, req.size as u64);
    out
}

/// Builds the keyword command.
pub fn keyword(req: &KeywordRequest) -> (r: String)
    ensures
        r@ == keyword_command(req.name@, req.value@),
{
    let mut out = String::from_str("keyword ");
    out.append(req.name.as_str());
    out.push(' ');
    out.append(req.value.as_str());
    out
}

/// Builds the layout-switch command.
pub fn switchxkblayout(req: &SwitchXkbLayoutRequest) -> (r: String)
    ensures
        r@ == switchxkblayout_command(req.keyboard@, req.command@),
{
    let mut out = String::from_str("switchxkblayout ");
    out.append(req.keyboard.as_str());
    out.push(' ');
    out.append(req.command.as_str());
    out
}

/// Builds the decoration-listing command.
pub fn decorations(req: &DecorationsRequest) -> (r: String)
    ensures
        r@ == "decorations "@ + req.window_regex@,
{
    let mut out = String::from_str("decorations ");
    out.append(req.window_regex.as_str());
    out
}

/// Builds a dispatch command from the dispatcher and its arguments.
pub fn dispatch(req: &DispatchCommandRequest) -> (r: String)
    ensures
        r@ == "dispatch "@ + req.args@,
{
    let mut out = String::from_str("dispatch ");
    out.append(req.args.as_str());
    out
}

/// Builds the option-read command.
pub fn getoption(req: &OptionNameRequest) -> (r: String)
    ensures
        r@ == "getoption "@ + req.option@,
{
    let mut out = String::from_str("getoption ");
    out.append(req.option.as_str());
    out
}

/// Builds an output subcommand.
pub fn output(req: &RawArgsRequest) -> (r: String)
    ensures
        r@ == "output "@ + req.args@,
{
    let mut out = String::from_str("output ");
    out.append(req.args.as_str());
    out
}

/// Builds a plugin subcommand.
pub fn plugin(req: &RawArgsRequest) -> (r: String)
    ensures
        r@ == "plugin "@ + req.args@,
{
    let mut out = String::from_str("plugin ");
    out.append(req.args.as_str());
    out
}

/// Builds a window-property write command.
pub fn setprop(req: &RawArgsRequest) -> (r: String)
    ensures
        r@ == "setprop "@ + req.args@,
{
    let mut out = String::from_str("setprop ");
    out.append(req.args.as_str());
    out
}

/// Builds a window-property read command.
pub fn getprop(req: &RawArgsRequest) -> (r: String)
    ensures
        r@ == "getprop "@ + req.args@,
{
    let mut out = String::from_str("getprop ");
    out.append(req.args.as_str());
    out
}

/// Builds a hyprpaper request.
pub fn hyprpaper(req: &RawArgsRequest) -> (r: String)
    ensures
        r@ == "hyprpaper "@ + req.args@,
{
    let mut out = String::from_str("hyprpaper ");
    out.append(req.args.as_str());
    out
}

/// Builds a hyprsunset request.
pub fn hyprsunset(req: &RawArgsRequest) -> (r: String)
    ensures
        r@ == "hyprsunset "@ + req.args@,
{
    let mut out = String::from_str("hyprsunset ");
    out.append(req.args.as_str());
    out
}

/// Active-window query.
pub fn activewindow() -> (r: String)
    ensures
        r@ == "activewindow"@,
{
    String::from_str("activewindow")
}

/// Active-workspace query.
pub fn activeworkspace() -> (r: String)
    ensures
        r@ == "activeworkspace"@,
{
    String::from_str("activeworkspace")
}

/// Animation and bezier query.
pub fn animations() -> (r: String)
    ensures
        r@ == "animations"@,
{
    String::from_str("animations")
}

/// Bind listing.
pub fn binds() -> (r: String)
    ensures
        r@ == "binds"@,
{
    String::from_str("binds")
}

/// Client listing.
pub fn clients() -> (r: String)
    ensures
        r@ == "clients"@,
{
    String::from_str("clients")
}

/// Config-error listing.
pub fn configerrors() -> (r: String)
    ensures
        r@ == "configerrors"@,
{
    String::from_str("configerrors")
}

/// Cursor-position query.
pub fn cursorpos() -> (r: String)
    ensures
        r@ == "cursorpos"@,
{
    String::from_str("cursorpos")
}

/// Global-shortcut listing.
pub fn globalshortcuts() -> (r: String)
    ensures
        r@ == "globalshortcuts"@,
{
    String::from_str("globalshortcuts")
}

/// Instance listing.
pub fn instances() -> (r: String)
    ensures
        r@ == "instances"@,
{
    String::from_str("instances")
}

/// Kill-mode entry.
pub fn kill() -> (r: String)
    ensures
        r@ == "kill"@,
{
    String::from_str("kill")
}

/// Layer-surface listing.
pub fn layers() -> (r: String)
    ensures
        r@ == "layers"@,
{
    String::from_str("layers")
}

/// Layout listing.
pub fn layouts() -> (r: String)
    ensures
        r@ == "layouts"@,
{
    String::from_str("layouts")
}

/// Splash-text query.
pub fn splash() -> (r: String)
    ensures
        r@ == "splash"@,
{
    String::from_str("splash")
}

/// System-info query.
pub fn systeminfo() -> (r: String)
    ensures
        r@ == "systeminfo"@,
{
    String::from_str("systeminfo")
}

/// Version query.
pub fn version() -> (r: String)
    ensures
        r@ == "version"@,
{
    String::from_str("version")
}

/// Workspace-rule listing.
pub fn workspacerules() -> (r: String)
    ensures
        r@ == "workspacerules"@,
{
    String::from_str("workspacerules")
}

/// Workspace listing.
pub fn workspaces() -> (r: String)
    ensures
        r@ == "workspaces"@,
{
    String::from_str("workspaces")
}

/// The command a tool request reduces to, or the validation failure that
/// stops it. This is the mathematical model of the whole builder surface.
pub open spec fn command_for(req: ToolRequest) -> Result<Seq<char>, ValidationError> {
    match req {
        ToolRequest::Hyprctl(r) => Ok(r.command@),
        ToolRequest::Workspace(r) => if r.n >= 1 {
            Ok(workspace_command(r.n as nat))
        } else {
            Err(ValidationError::WorkspaceOutOfRange)
        },
        ToolRequest::ActiveWindow => Ok("activewindow"@),
        ToolRequest::ActiveWorkspace => Ok("activeworkspace"@),
        ToolRequest::Animations => Ok("animations"@),
        ToolRequest::Binds => Ok("binds"@),
        ToolRequest::Clients => Ok("clients"@),
        ToolRequest::ConfigErrors => Ok("configerrors"@),
        ToolRequest::CursorPos => Ok("cursorpos"@),
        ToolRequest::Decorations(r) => Ok("decorations "@ + r.window_regex@),
        ToolRequest::DismissNotify(r) => Ok(dismissnotify_command(r.amount)),
        ToolRequest::Dispatch(r) => Ok("dispatch "@ + r.args@),
        ToolRequest::GetOption(r) => Ok("getoption "@ + r.option@),
        ToolRequest::GlobalShortcuts => Ok("globalshortcuts"@),
        ToolRequest::Instances => Ok("instances"@),
        ToolRequest::Keyword(r) => Ok(keyword_command(r.name@, r.value@)),
        ToolRequest::Kill => Ok("kill"@),
        ToolRequest::Layers => Ok("layers"@),
        ToolRequest::Layouts => Ok("layouts"@),
        ToolRequest::Monitors(r) => Ok(monitors_command(r.all)),
        ToolRequest::Notify(r) => Ok(
            notify_command(r.icon as int, r.timeout_ms as nat, r.color@, r.message@),
        ),
        ToolRequest::Output(r) => Ok("output "@ + r.args@),
        ToolRequest::Plugin(r) => Ok("plugin "@ + r.args@),
        ToolRequest::Reload(r) => Ok(reload_command(r.config_only)),
        ToolRequest::RollingLog(r) => Ok(rollinglog_command(r.follow)),
        ToolRequest::SetCursor(r) => Ok(setcursor_command(r.theme@, r.size as nat)),
        ToolRequest::SetError(r) => Ok(seterror_command(r.color@, r.message@)),
        ToolRequest::SetProp(r) => Ok("setprop "@ + r.args@),
        ToolRequest::GetProp(r) => Ok("getprop "@ + r.args@),
        ToolRequest::Splash => Ok("splash"@),
        ToolRequest::SwitchXkbLayout(r) => Ok(switchxkblayout_command(r.keyboard@, r.command@)),
        ToolRequest::SystemInfo => Ok("systeminfo"@),
        ToolRequest::Version => Ok("version"@),
        ToolRequest::WorkspaceRules => Ok("workspacerules"@),
        ToolRequest::Workspaces => Ok("workspaces"@),
        ToolRequest::Hyprpaper(r) => Ok("hyprpaper "@ + r.args@),
        ToolRequest::Hyprsunset(r) => Ok("hyprsunset "@ + r.args@),
    }
}

/// A built command, viewed as the sequence of characters that will stand on
/// the wire.
pub open spec fn built_view(r: Result<String, ValidationError>) -> Result<
    Seq<char>,
    ValidationError,
> {
    match r {
        Ok(s) => Ok(s@),
        Err(e) => Err(e),
    }
}

/// Reduces any tool request to its command line, or to the validation
/// failure that `command_for` assigns it.
pub fn build(req: &ToolRequest) -> (r: Result<String, ValidationError>)
    ensures
        built_view(r) == command_for(*req),
{
    match req {
        ToolRequest::Hyprctl(r) => Ok(hyprctl(r)),
        ToolRequest::Workspace(r) => workspace(r),
        ToolRequest::ActiveWindow => Ok(activewindow()),
        ToolRequest::ActiveWorkspace => Ok(activeworkspace()),
        ToolRequest::Animations => Ok(animations()),
        ToolRequest::Binds => Ok(binds()),
        ToolRequest::Clients => Ok(clients()),
        ToolRequest::ConfigErrors => Ok(configerrors()),
        ToolRequest::CursorPos => Ok(cursorpos()),
        ToolRequest::Decorations(r) => Ok(decorations(r)),
        ToolRequest::DismissNotify(r) => Ok(dismissnotify(r)),
        ToolRequest::Dispatch(r) => Ok(dispatch(r)),
        ToolRequest::GetOption(r) => Ok(getoption(r)),
        ToolRequest::GlobalShortcuts => Ok(globalshortcuts()),
        ToolRequest::Instances => Ok(instances()),
        ToolRequest::Keyword(r) => Ok(keyword(r)),
        ToolRequest::Kill => Ok(kill()),
        ToolRequest::Layers => Ok(layers()),
        ToolRequest::Layouts => Ok(layouts()),
        ToolRequest::Monitors(r) => Ok(monitors(r)),
        ToolRequest::Notify(r) => Ok(notify(r)),
        ToolRequest::Output(r) => Ok(output(r)),
        ToolRequest::Plugin(r) => Ok(plugin(r)),
        ToolRequest::Reload(r) => Ok(reload(r)),
        ToolRequest::RollingLog(r) => Ok(rollinglog(r)),
        ToolRequest::SetCursor(r) => Ok(setcursor(r)),
        ToolRequest::SetError(r) => Ok(seterror(r)),
        ToolRequest::SetProp(r) => Ok(setprop(r)),
        ToolRequest::GetProp(r) => Ok(getprop(r)),
        ToolRequest::Splash => Ok(splash()),
        ToolRequest::SwitchXkbLayout(r) => Ok(switchxkblayout(r)),
        ToolRequest::SystemInfo => Ok(systeminfo()),
        ToolRequest::Version => Ok(version()),
        ToolRequest::WorkspaceRules => Ok(workspacerules()),
        ToolRequest::Workspaces => Ok(workspaces()),
        ToolRequest::Hyprpaper(r) => Ok(hyprpaper(r)),
        ToolRequest::Hyprsunset(r) => Ok(hyprsunset(r)),
    }
}

} // verus!
