[package]
name = "plugin_host"
version = "0.1.0"
edition = "2021"
publish = false

[dependencies]
clack-host = { version = "=0.2.0", features = ["clack-plugin"] }
clack-extensions = { version = "=0.2.0", features = ["clack-host", "clack-plugin", "gui", "timer", "state", "log", "params", "audio-ports", "note-ports"] }
etcetera = "=0.11.0"
tracing = "=0.1.44"
walkdir = "=2.5.0"
winit = "=0.30.13"

[dev-dependencies]
clack-plugin = "=0.2.0"
