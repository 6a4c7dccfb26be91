[package]
name = "wwmts3gw"
version = "0.1.0"
edition = "2021"
publish = false

[dependencies]
anyhow = "1"
audiopus = "0.2"
clap = { version = "4", features = ["derive"] }
directories = "6"
futures = "0.3"
serde = { version = "1", features = ["derive"] }
symphonia = { version = "0.5", features = ["mp3", "aac", "isomp4"] }
tokio = { version = "1", features = ["macros", "rt-multi-thread", "signal", "sync", "time"] }
toml = "0.8"
tracing = "0.1"
tracing-subscriber = { version = "0.3", features = ["env-filter"] }
ts-bookkeeping = "0.1"
tsclientlib = { version = "0.2", default-features = false }
tsproto-packets = "0.1"
windows-sys = { version = "0.59", features = ["Win32_System_Console"] }
