[package]
name = "isolator"
version = "0.1.0"
edition = "2021"
publish = false

[dependencies]
anyhow = "*"
clap = { version = "*", features = ["derive"] }
directories = "*"
indicatif = "*"
inquire = "*"
libc = "*"
nix = { version = "*", features = ["mount", "sched", "user", "process", "fs", "signal"] }
seccomp-sys = "*"
tracing = "*"
tracing-subscriber = "*"
