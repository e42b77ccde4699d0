[package]
name = "mpfs_aperture"
version = "0.1.0"
edition = "2021"
publish = false

[dependencies]
device_tree = "*"
clap = { version = "3", features = ["derive"] }
crossterm = "0.25"
serde_yaml = "*"
tui = "0.19"
