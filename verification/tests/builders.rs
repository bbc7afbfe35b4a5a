//! Exact expected command lines for every builder, and the text building
//! blocks behind them.

use hyprland_mcp::builder::{
    activewindow, activeworkspace, animations, binds, build, clients, configerrors, cursorpos,
    decorations, dismissnotify, dispatch, getoption, getprop, globalshortcuts, hyprctl, hyprpaper,
    hyprsunset, instances, keyword, kill, layers, layouts, monitors, notify, output, plugin,
    reload, rollinglog, setcursor, seterror, setprop, splash, switchxkblayout, systeminfo,
    validation_message, version, workspace, workspacerules, workspaces, ValidationError,
};
use hyprland_mcp::request::{
    DecorationsRequest, DismissNotifyRequest, DispatchCommandRequest, HyprctlRequest,
    KeywordRequest, MonitorsRequest, NotifyRequest, OptionNameRequest, RawArgsRequest,
    ReloadRequest, RollingLogRequest, SetCursorRequest, SetErrorRequest, SwitchXkbLayoutRequest,
    ToolRequest, WorkspaceRequest,
};
use hyprland_mcp::text::{decimal_string, push_decimal, push_quoted, push_signed_decimal, quote};

#[test]
fn decimal_small_values() {
    assert_eq!(decimal_string(0), "0");
    assert_eq!(decimal_string(7), "7");
    assert_eq!(decimal_string(10), "10");
    assert_eq!(decimal_string(12345), "12345");
}

#[test]
fn decimal_largest_value() {
    assert_eq!(decimal_string(u64::MAX), "18446744073709551615");
}

#[test]
fn decimal_appends_to_prefix() {
    let mut s = String::from("n=");
    push_decimal(&mut s, 250);
    assert_eq!(s, "n=250");
}

#[test]
fn signed_decimal_values() {
    let mut s = String::new();
    push_signed_decimal(&mut s, -5);
    assert_eq!(s, "-5");
    let mut t = String::new();
    push_signed_decimal(&mut t, 0);
    assert_eq!(t, "0");
    let mut u = String::new();
    push_signed_decimal(&mut u, i32::MIN);
    assert_eq!(u, "-2147483648");
    let mut v = String::new();
    push_signed_decimal(&mut v, i32::MAX);
    assert_eq!(v, "2147483647");
}

#[test]
fn quoting_plain_text() {
    let mut s = String::new();
    push_quoted(&mut s, "hello world");
    assert_eq!(s, "\"hello world\"");
}

#[test]
fn quoting_escapes_each_double_quote_once() {
    let mut s = String::new();
    push_quoted(&mut s, "He said \"hi\"");
    assert_eq!(s, "\"He said \\\"hi\\\"\"");
}

#[test]
fn quote_returns_fresh_string() {
    assert_eq!(quote("plain"), "\"plain\"");
    assert_eq!(quote("say \"yes\""), "\"say \\\"yes\\\"\"");
    // A backslash in the message is left alone: one layer of escaping only.
    assert_eq!(quote("a\\b"), "\"a\\b\"");
}

#[test]
fn quoting_empty_text() {
    let mut s = String::new();
    push_quoted(&mut s, "");
    assert_eq!(s, "\"\"");
}

#[test]
fn passthrough_is_identity() {
    let r = hyprctl(&HyprctlRequest { command: String::from("dispatch exec kitty") });
    assert_eq!(r, "dispatch exec kitty");
    let odd = hyprctl(&HyprctlRequest { command: String::from("  weird \"stuff\"\n") });
    assert_eq!(odd, "  weird \"stuff\"\n");
    let empty = hyprctl(&HyprctlRequest { command: String::new() });
    assert_eq!(empty, "");
}

#[test]
fn workspace_positive_numbers() {
    assert_eq!(workspace(&WorkspaceRequest { n: 1 }).unwrap(), "dispatch workspace 1");
    assert_eq!(workspace(&WorkspaceRequest { n: 3 }).unwrap(), "dispatch workspace 3");
    assert_eq!(workspace(&WorkspaceRequest { n: 42 }).unwrap(), "dispatch workspace 42");
}

#[test]
fn workspace_zero_fails_validation() {
    let r = workspace(&WorkspaceRequest { n: 0 });
    assert_eq!(r, Err(ValidationError::WorkspaceOutOfRange));
    assert_eq!(
        validation_message(&ValidationError::WorkspaceOutOfRange),
        "workspace must be >= 1"
    );
}

#[test]
fn monitors_flag_omitted_when_unset() {
    assert_eq!(monitors(&MonitorsRequest { all: None }), "monitors");
    assert_eq!(monitors(&MonitorsRequest { all: Some(false) }), "monitors");
    assert_eq!(monitors(&MonitorsRequest { all: Some(true) }), "monitors all");
}

#[test]
fn reload_flag_omitted_when_unset() {
    assert_eq!(reload(&ReloadRequest { config_only: None }), "reload");
    assert_eq!(reload(&ReloadRequest { config_only: Some(false) }), "reload");
    assert_eq!(reload(&ReloadRequest { config_only: Some(true) }), "reload config-only");
}

#[test]
fn rollinglog_flag_omitted_when_unset() {
    assert_eq!(rollinglog(&RollingLogRequest { follow: None }), "rollinglog");
    assert_eq!(rollinglog(&RollingLogRequest { follow: Some(false) }), "rollinglog");
    assert_eq!(rollinglog(&RollingLogRequest { follow: Some(true) }), "rollinglog -f");
}

#[test]
fn dismissnotify_amount_omitted_when_unset() {
    assert_eq!(dismissnotify(&DismissNotifyRequest { amount: None }), "dismissnotify");
    assert_eq!(dismissnotify(&DismissNotifyRequest { amount: Some(5) }), "dismissnotify 5");
}

#[test]
fn notify_quotes_message() {
    let r = notify(&NotifyRequest {
        icon: 1,
        timeout_ms: 3000,
        color: String::from("rgb(ff0000)"),
        message: String::from("He said \"hi\""),
    });
    assert_eq!(r, "notify 1 3000 rgb(ff0000) \"He said \\\"hi\\\"\"");
}

#[test]
fn notify_negative_icon() {
    let r = notify(&NotifyRequest {
        icon: -1,
        timeout_ms: 0,
        color: String::from("rgb(7fd16a)"),
        message: String::from("done"),
    });
    assert_eq!(r, "notify -1 0 rgb(7fd16a) \"done\"");
}

#[test]
fn seterror_quotes_message() {
    let r = seterror(&SetErrorRequest {
        color: String::from("rgb(ff0000)"),
        message: String::from("bad \"config\""),
    });
    assert_eq!(r, "seterror rgb(ff0000) \"bad \\\"config\\\"\"");
}

#[test]
fn argument_builders() {
    assert_eq!(
        decorations(&DecorationsRequest { window_regex: String::from("kitty.*") }),
        "decorations kitty.*"
    );
    assert_eq!(
        dispatch(&DispatchCommandRequest { args: String::from("exec kitty") }),
        "dispatch exec kitty"
    );
    assert_eq!(
        getoption(&OptionNameRequest { option: String::from("general:gaps_in") }),
        "getoption general:gaps_in"
    );
    assert_eq!(
        keyword(&KeywordRequest {
            name: String::from("general:gaps_in"),
            value: String::from("10"),
        }),
        "keyword general:gaps_in 10"
    );
    assert_eq!(
        setcursor(&SetCursorRequest { theme: String::from("Adwaita"), size: 24 }),
        "setcursor Adwaita 24"
    );
    assert_eq!(
        switchxkblayout(&SwitchXkbLayoutRequest {
            keyboard: String::from("kb0"),
            command: String::from("next"),
        }),
        "switchxkblayout kb0 next"
    );
}

#[test]
fn raw_args_builders() {
    let req = RawArgsRequest { args: String::from("a b") };
    assert_eq!(output(&req), "output a b");
    assert_eq!(plugin(&req), "plugin a b");
    assert_eq!(setprop(&req), "setprop a b");
    assert_eq!(getprop(&req), "getprop a b");
    assert_eq!(hyprpaper(&req), "hyprpaper a b");
    assert_eq!(hyprsunset(&req), "hyprsunset a b");
}

#[test]
fn fixed_verb_builders() {
    assert_eq!(activewindow(), "activewindow");
    assert_eq!(activeworkspace(), "activeworkspace");
    assert_eq!(animations(), "animations");
    assert_eq!(binds(), "binds");
    assert_eq!(clients(), "clients");
    assert_eq!(configerrors(), "configerrors");
    assert_eq!(cursorpos(), "cursorpos");
    assert_eq!(globalshortcuts(), "globalshortcuts");
    assert_eq!(instances(), "instances");
    assert_eq!(kill(), "kill");
    assert_eq!(layers(), "layers");
    assert_eq!(layouts(), "layouts");
    assert_eq!(splash(), "splash");
    assert_eq!(systeminfo(), "systeminfo");
    assert_eq!(version(), "version");
    assert_eq!(workspacerules(), "workspacerules");
    assert_eq!(workspaces(), "workspaces");
}

#[test]
fn build_routes_each_variant() {
    assert_eq!(
        build(&ToolRequest::Hyprctl(HyprctlRequest { command: String::from("splash") })),
        Ok(String::from("splash"))
    );
    assert_eq!(
        build(&ToolRequest::Workspace(WorkspaceRequest { n: 2 })),
        Ok(String::from("dispatch workspace 2"))
    );
    assert_eq!(
        build(&ToolRequest::Workspace(WorkspaceRequest { n: 0 })),
        Err(ValidationError::WorkspaceOutOfRange)
    );
    assert_eq!(build(&ToolRequest::ActiveWindow), Ok(String::from("activewindow")));
    assert_eq!(
        build(&ToolRequest::Monitors(MonitorsRequest { all: Some(true) })),
        Ok(String::from("monitors all"))
    );
    assert_eq!(
        build(&ToolRequest::Hyprsunset(RawArgsRequest { args: String::from("identity") })),
        Ok(String::from("hyprsunset identity"))
    );
}

#[test]
fn interleaved_builds_stay_independent() {
    // No shared buffer: two builds in flight at once never corrupt each
    // other's command strings.
    let first = workspace(&WorkspaceRequest { n: 7 });
    let second = notify(&NotifyRequest {
        icon: 2,
        timeout_ms: 100,
        color: String::from("rgb(00ff00)"),
        message: String::from("x"),
    });
    let third = workspace(&WorkspaceRequest { n: 8 });
    assert_eq!(first.unwrap(), "dispatch workspace 7");
    assert_eq!(second, "notify 2 100 rgb(00ff00) \"x\"");
    assert_eq!(third.unwrap(), "dispatch workspace 8");
}
