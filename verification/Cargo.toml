[package]
name = "serif"
version = "0.1.0"
edition = "2021"
publish = false

[dependencies]
jiff = "*"
nu-ansi-term = "*"
is-terminal = "*"
tracing = "*"
tracing-core = "*"
tracing-log = "*"
tracing-subscriber = { version = "*", features = ["env-filter"] }
