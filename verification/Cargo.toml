[package]
name = "gridrules"
version = "0.1.0"
edition = "2021"
publish = false

[dependencies]
itertools = "*"
glob = "*"
ron = "*"
serde = "*"
serde_derive = "*"
termion = "*"
