[package]
name = "dbgcore"
version = "0.1.0"
edition = "2021"
publish = false

[dependencies]
nix = { version = "=0.31.3", features = ["ptrace", "signal", "process"] }
proc-maps = "=0.5.0"
yaxpeax-arch = "=0.3.2"
yaxpeax-msp430 = "=0.2.0"
