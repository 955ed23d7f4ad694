[package]
name = "gcue"
version = "0.1.0"
edition = "2021"
publish = false

[dependencies]
anyhow = "=1.0.104"
aws-config = { version = "=1.13.0", features = ["behavior-version-latest"] }
aws-sdk-neptunedata = "=1.119.0"
aws-smithy-types = "=1.9.0"
chrono = "=0.4.45"
clap = { version = "=4.6.7", features = ["derive"] }
colored = "=3.1.1"
csv = "=1.4.0"
etcetera = "=0.11.0"
neo4rs = { version = "=0.8.0", features = ["json"] }
rustyline = "=19.0.0"
serde_json = { version = "=1.0.154", features = ["float_roundtrip"] }
tabled = "=0.22.0"
tempfile = "=3.27.0"
tokio = { version = "=1.54.1", features = ["fs", "macros", "rt-multi-thread"] }
