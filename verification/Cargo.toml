[package]
name = "here"
version = "0.2.0"
edition = "2021"
publish = false

[dependencies]
rustc_apfloat = "=0.2.3"
smallvec = "=1.16.4"
log = "=0.4.35"
libc = "=0.2.191"
region = "=3.0.2"
tokio = { version = "=1.54.1", features = ["rt", "sync", "macros", "time"] }
embedded-io-async = "=0.6.1"
noline = { version = "=0.5.1", features = ["std"] }

[dev-dependencies]
rand = "0.9"
rand_chacha = "0.9"
