[package]
name = "github-backup"
version = "0.1.0"
edition = "2021"
publish = false

[dependencies]
async-stream = "=0.3.6"
async-trait = "=0.1.92"
chrono = { version = "=0.4.45", features = ["serde"] }
clap = { version = "=4.6.7", features = ["derive"] }
croner = "=4.0.2"
ctrlc = "=3.5.2"
gix = { version = "=0.90.0", default-features = false, features = ["blocking-network-client", "sha1"] }
human-errors = "=0.2.4"
parse_link_header = "=0.4.1"
reqwest = { version = "=0.13.5", default-features = false, features = ["json"] }
serde = { version = "=1.0.229", features = ["derive"] }
serde_json = "=1.0.154"
serde_yaml = "=0.9.34+deprecated"
sha2 = "=0.11.1"
tokio = { version = "=1.54.1", features = ["rt-multi-thread", "macros", "fs", "io-util", "time"] }
tokio-stream = "=0.1.19"
tracing = "=0.1.44"
unicase = "=2.10.0"
