[package]
name = "passata"
version = "0.1.0"
edition = "2021"
publish = false

[dependencies]
humantime = "2"
color-eyre = "*"
figment = { version = "*", features = ["toml", "env"] }
flexi_logger = "*"
humantime-serde = "*"
lexopt = "*"
log = "0.4"
nix = { version = "*", features = ["process"] }
notify-rust = { version = "*", default-features = false, features = ["z"] }
serde = { version = "1", features = ["derive"] }
smithay-client-toolkit = { version = "*", default-features = false, features = ["calloop"] }
xdg = "*"
