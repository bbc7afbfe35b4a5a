//! Static server description handed to the host runtime: fixed text, no
//! behavior and no failure modes.

use vstd::prelude::*;

verus! {

/// The server's human-readable title.
pub fn server_title() -> (r: &'static str)
    ensures
        r@ == "Hyprland MCP"@,
{
    "Hyprland MCP"
}

/// The server's human-readable description.
pub fn server_description() -> (r: &'static str)
    ensures
        r@ == "Local MCP server for controlling Hyprland through its unix socket."@,
{
    "Local MCP server for controlling Hyprland through its unix socket."
}

/// Fixed usage guidance: dedicated tools exist per subcommand, and the
/// pass-through tool covers anything they do not.
pub fn instructions() -> (r: &'static str)
    ensures
        r@ == "Use dedicated tools for each hyprctl subcommand. For advanced behavior, use `hyprctl` with a raw command string."@,
{
    "Use dedicated tools for each hyprctl subcommand. For advanced behavior, use `hyprctl` with a raw command string."
}

/// The project website the server advertises.
pub fn website_url() -> (r: &'static str)
    ensures
        r@ == "https://wiki.hypr.land"@,
{
    "https://wiki.hypr.land"
}

} // verus!
