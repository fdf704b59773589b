[package]
name = "jobshell"
version = "0.1.0"
edition = "2021"
publish = false

[dependencies]
anyhow = "1"
nix = "0.26"
rustyline = "9"
signal-hook = "0.3"
unindent = "0.1"
