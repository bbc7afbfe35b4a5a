[package]
name = "hyprland_mcp"
version = "0.1.0"
edition = "2021"
publish = false

[dependencies]
anyhow = "*"
rmcp = { version = "*", features = ["server", "macros", "transport-io"] }
serde = { version = "*", features = ["derive"] }
tokio = { version = "*", features = ["macros", "rt-multi-thread", "io-std"] }
