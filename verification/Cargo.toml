[package]
name = "starship"
version = "0.1.0"
edition = "2021"
publish = false

[dependencies]
serde = { version = "1", features = ["derive"] }
toml = "*"
home = "*"
which = "*"
guess_host_triple = "*"
notify-rust = "*"
nu-ansi-term = "*"
process_control = "*"
log = "*"
