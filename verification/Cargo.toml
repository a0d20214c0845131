[package]
name = "git_transport"
version = "0.1.0"
edition = "2021"
publish = false

[dependencies]
git-packetline = { version = "=0.14.3", features = ["blocking-io"] }
