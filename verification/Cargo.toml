[package]
name = "wl_actions"
version = "0.1.0"
edition = "2021"
publish = false

[dependencies]
wl-proxy = "=0.1.4"
ctrlc = "*"
clap = { version = "*", features = ["derive"] }
clap_complete = "*"
thiserror = "*"
error_reporter = "*"
