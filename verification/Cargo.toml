[package]
name = "rdaggy"
version = "0.1.0"
edition = "2021"
publish = false

[dependencies]
bottomify = "=1.2.0"
dagpirs = { version = "=0.1.7", features = ["serenity"] }
num-integer = "=0.1.47"
reqwest = { version = "=0.11.27", features = ["json"] }
sentry = "=0.23.0"
serde = { version = "1", features = ["derive"] }
serde_json = "1"
serenity = { version = "=0.10.8", features = ["collector", "unstable_discord_api"] }
serenity_utils = "=0.6.1"
time = "=0.2.27"
tokio = { version = "1", features = ["macros", "rt-multi-thread", "signal", "fs", "io-util", "time"] }
tracing = "0.1"
tracing-subscriber = "0.2"
unidecode = "=0.3.0"
uwuify = "=0.2.2"
