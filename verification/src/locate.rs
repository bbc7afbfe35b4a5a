//! Socket-path resolution: from the two configuration values read at
//! process startup to the control socket's filesystem path.
//!
//! Reading the environment itself happens outside this crate; what arrives
//! here are the two values as they were found (or not found). A missing or
//! empty value is a fatal startup condition, never a per-call error.

use vstd::prelude::*;

verus! {

/// A required startup value was missing or empty; the process cannot serve.
#[derive(Clone, Copy, Debug, PartialEq, Eq, Structural)]
pub enum ConfigError {
    /// The runtime-directory root was absent.
    MissingRuntimeDir,
    /// The compositor instance identifier was absent.
    MissingInstanceSignature,
}

/// The descriptive fatal message for a startup failure, naming the value
/// that was missing.
pub open spec fn config_message_seq(e: ConfigError) -> Seq<char> {
    match e {
        ConfigError::MissingRuntimeDir => "required environment value XDG_RUNTIME_DIR is not set"@,
        ConfigError::MissingInstanceSignature => "required environment value HYPRLAND_INSTANCE_SIGNATURE is not set"@,
    }
}

/// Renders a startup failure as its exact fatal message.
pub fn config_message(e: &ConfigError) -> (r: String)
    ensures
        r@ == config_message_seq(*e),
{
    match e {
        ConfigError::MissingRuntimeDir => String::from_str(
            "required environment value XDG_RUNTIME_DIR is not set",
        ),
        ConfigError::MissingInstanceSignature => String::from_str(
            "required environment value HYPRLAND_INSTANCE_SIGNATURE is not set",
        ),
    }
}

/// A startup value counts as provided only when it is present and
/// non-empty.
pub open spec fn provided(v: Option<String>) -> bool {
    v matches Some(s) && s@.len() > 0
}

/// The control socket's path under a runtime directory for one compositor
/// instance.
pub open spec fn socket_path_seq(runtime_dir: Seq<char>, instance: Seq<char>) -> Seq<char> {
    runtime_dir + "/hypr/"@ + instance + "/.socket.sock"@
}

/// What resolution yields for any pair of startup values: the socket path
/// when both are provided, else the failure naming the first value that is
/// not. The runtime directory is checked first.
pub open spec fn resolved(runtime_dir: Option<String>, instance: Option<String>) -> Result<
    Seq<char>,
    ConfigError,
> {
    if !provided(runtime_dir) {
        Err(ConfigError::MissingRuntimeDir)
    } else if !provided(instance) {
        Err(ConfigError::MissingInstanceSignature)
    } else {
        Ok(socket_path_seq(runtime_dir->0@, instance->0@))
    }
}

/// A resolution outcome, viewed as the path's characters.
pub open spec fn path_view(r: Result<String, ConfigError>) -> Result<Seq<char>, ConfigError> {
    match r {
        Ok(p) => Ok(p@),
        Err(e) => Err(e),
    }
}

/// Resolves the control socket's path from the two startup values, exactly
/// as `resolved` describes.
pub fn socket_path(runtime_dir: &Option<String>, instance: &Option<String>) -> (r: Result<
    String,
    ConfigError,
>)
    ensures
        path_view(r) == resolved(*runtime_dir, *instance),
{
    let dir = match runtime_dir {
        Some(d) => {
            if d.as_str().is_empty() {
                return Err(ConfigError::MissingRuntimeDir);
            }
            d
        },
        None => {
            return Err(ConfigError::MissingRuntimeDir);
        },
    };
    let inst = match instance {
        Some(i) => {
            if i.as_str().is_empty() {
                return Err(ConfigError::MissingInstanceSignature);
            }
            i
        },
        None => {
            return Err(ConfigError::MissingInstanceSignature);
        },
    };
    let mut path = dir.clone();
    path.append("/hypr/");
    path.append(inst.as_str());
    path.append("/.socket.sock");
    Ok(path)
}

} // verus!
