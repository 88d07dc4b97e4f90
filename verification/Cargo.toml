[package]
name = "noir_exec"
version = "0.1.0"
edition = "2021"

[dependencies]
acvm = "0.22.0"
