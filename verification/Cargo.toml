[package]
name = "greptimedb_ffi"
version = "0.1.0"
edition = "2021"
publish = false

[dependencies]
backtrace = "=0.3.76"
greptimedb-ingester = "=0.19.0"
lazy_static = "=1.5.1"
libc = "=0.2.191"
serde = { version = "=1.0.229", features = ["derive"] }
serde_derive = "=1.0.229"
snafu = "=0.7.5"
strum = { version = "=0.25.0", features = ["derive"] }
tokio = { version = "=1.54.1", features = ["rt-multi-thread", "sync"] }
tracing = "=0.1.44"
tracing-appender = "=0.2.5"
tracing-bunyan-formatter = "=0.3.11"
tracing-log = "=0.1.4"
tracing-subscriber = "=0.3.23"
