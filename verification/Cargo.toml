[package]
name = "auth"
version = "0.1.0"
edition = "2021"
publish = false

[dependencies]
argon2 = { version = "=0.5.3", features = ["std"] }
error-trace = "*"
log = "=0.4.34"
proc-macro-error = "=1.0.4"
proc-macro2 = "=1.0.107"
quote = "=1.0.47"
serde = { version = "=1.0.229", features = ["derive"] }
serde_json = "=1.0.154"
syn = { version = "=2.0.119", features = ["full"] }
warp = { version = "=0.3.7", default-features = false }
