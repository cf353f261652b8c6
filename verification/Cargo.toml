[package]
name = "catalog_tui"
version = "0.1.0"
edition = "2021"
publish = false

[dependencies]
bytes = "=1.12.1"
dirs = "=7.0.0"
image = { version = "=0.25.10", default-features = false, features = ["jpeg", "png", "gif", "webp"] }
ratatui = "=0.30.2"
ratatui-image = { version = "=11.1.0", default-features = false, features = ["crossterm"] }
textwrap = "=0.16.4"
tokio = { version = "=1.53.2", default-features = false, features = ["rt-multi-thread", "macros", "time"] }
