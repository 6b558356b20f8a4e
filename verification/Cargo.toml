[package]
name = "wire"
version = "0.1.0"
edition = "2021"
publish = false

[dependencies]
aho-corasick = "=1.1.5"
owo-colors = "=4.2.3"
termion = "=4.0.6"
gjson = "=0.8.1"
strip-ansi-escapes = "=0.2.1"
sha2 = "=0.10.9"
base64 = "=0.22.1"
tokio-util = { version = "=0.7.20", features = ["codec"] }
prost = "=0.13.5"
gethostname = "=1.1.0"
serde = { version = "=1.0.229", features = ["derive"] }
serde_json = "=1.0.154"
clap = { version = "=4.5.61", features = ["derive"] }
tokio = { version = "=1.54.1", features = ["full"] }
tracing = "=0.1.44"
tracing-subscriber = "=0.3.23"
anyhow = "=1.0.104"
rand = "0.9"
clap-num = "1"
regex = "1"
im = "15"
