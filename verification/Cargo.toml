[package]
name = "bwrap_core"
version = "0.1.0"
edition = "2021"
publish = false

[dependencies]
rustix = { version = "*", features = ["fs", "pipe", "thread", "process"] }
shlex = "*"
fastrand = "*"
serde = { version = "*", features = ["derive"] }
toml = "*"
shellexpand = "*"
minijinja = { version = "*", features = ["loader"] }
lexopt = "*"
ctrlc = "*"
linux-raw-sys = { version = "*", features = ["ioctl"] }
