[package]
name = "tmux_workspace"
version = "0.1.0"
edition = "2021"
publish = false

[dependencies]
regex = "=1.13.1"
anyhow = "=1.0.104"
tmux_interface = "=0.0.7"
