[package]
name = "container"
version = "0.1.0"
edition = "2021"
publish = false

[dependencies]
anyhow = "*"
btrfsutil = "*"
clap = { version = "*", features = ["derive"] }
config = "*"
libc = "*"
nix = { version = "*", features = ["fs", "hostname", "mount", "process", "sched", "signal", "socket", "user"] }
scopeguard = "*"
serde = { version = "*", features = ["derive"] }
serde_derive = "*"
tempfile = "*"
thiserror = "*"
uuid = { version = "*", features = ["v4"] }
