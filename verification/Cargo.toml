[package]
name = "vigilare"
version = "0.1.0"
edition = "2021"
publish = false

[dependencies]
anyhow = "=1.0.104"
async-trait = "=0.1.92"
clap = { version = "=4.6.7", features = ["derive"] }
duration-string = "=0.4.0"
enigo = "=0.2.1"
futures = "=0.3.34"
serde = { version = "=1.0.229", features = ["derive"] }
serde_json = "=1.0.154"
serde_variant = "=0.1.3"
tokio = { version = "=1.54.1", features = ["macros", "process", "rt-multi-thread", "signal", "sync", "time"] }
tracing = "=0.1.44"
tracing-subscriber = "=0.3.23"
zbus = { version = "=4.4.0", default-features = false, features = ["tokio"] }
zvariant = { version = "=4.2.0", default-features = false }
