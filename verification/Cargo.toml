[package]
name = "sandbox"
version = "0.1.0"
edition = "2021"
publish = false

[dependencies]
clap = "3.2"
nix = "0.24"
seccomp-sys = "0.1.3"
