//! Verified core of a local bridge that exposes Hyprland's control socket as
//! a set of typed tools.
//!
//! Everything here is pure: turning a typed tool request into exactly one
//! command line for the compositor's socket, resolving the socket path from
//! configuration values, and translating failures into caller-visible text.
//! The process edges (environment, socket I/O, the RPC runtime) live outside
//! this crate's verified surface and hand plain values in and out.

pub mod builder;
pub mod locate;
pub mod metadata;
pub mod request;
pub mod router;
pub mod text;
