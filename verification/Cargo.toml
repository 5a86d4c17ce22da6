[package]
name = "mwm_xcb"
version = "0.1.0"
edition = "2021"
publish = false

[dependencies]
anyhow = "1"
log = "0.4"
pretty_env_logger = "0.5"
xcb = { version = "1", features = ["randr"] }
