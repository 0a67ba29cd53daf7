[package]
name = "libnfs"
version = "0.1.0"
edition = "2021"
publish = false

[dependencies]
libc = "0.2"
thiserror = "1"
tokio = { version = "1", features = ["macros", "rt", "sync", "time"] }
