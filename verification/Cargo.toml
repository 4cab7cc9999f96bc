[package]
name = "shim_core"
version = "0.1.0"
edition = "2021"
publish = false

[dependencies]
anyhow = "=1.0.104"
chrono = { version = "=0.4.45", default-features = false, features = ["clock"] }
libc = "=0.2.191"
libcontainer = { version = "=0.7.0", default-features = false }
log = "=0.4.34"
nix = { version = "=0.29.0", features = ["signal", "process"] }
oci-spec = { version = "=0.10.0", default-features = false, features = ["image", "runtime"] }
proc-macro2 = "=1.0.107"
quote = "=1.0.47"
serde = { version = "=1.0.229", features = ["derive"] }
serde_json = "=1.0.154"
syn = { version = "=2.0.119", features = ["full"] }
zygote = "=0.1.2"
