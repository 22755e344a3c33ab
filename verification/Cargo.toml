[package]
name = "vibe"
version = "0.1.0"
edition = "2021"
publish = false

[dependencies]
anyhow = "=1.0.104"
clap = { version = "=4.6.7", features = ["derive"] }
crossbeam = "=0.8.5"
dirs = "=7.0.0"
hostname = "=0.4.2"
libpulse-binding = "=2.30.1"
log = "=0.4.34"
notify-rust = "=4.18.2"
pipewire = "=0.10.1"
rodio = { version = "=0.23.0", default-features = false, features = ["playback"] }
simple_logger = "=5.2.0"
slimproto = "=0.1.26"
symphonia = { version = "=0.5.5", features = ["all"] }
which = "=8.0.6"
