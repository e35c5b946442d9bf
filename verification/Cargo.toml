[package]
name = "tango_lockstep"
version = "0.1.0"
edition = "2021"
publish = false

[dependencies]
base64 = "*"
semver = "*"
