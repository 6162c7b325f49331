[package]
name = "tokio_system_resolver"
version = "0.1.0"
edition = "2021"
publish = false

[dependencies]
libc = "0.2"
thiserror = "2"
tokio = { version = "1", features = ["sync", "time", "rt", "rt-multi-thread", "macros"] }

[dev-dependencies]
tokio = { version = "1", features = ["sync", "time", "rt", "macros", "test-util"] }
