[package]
name = "duckdns"
version = "0.1.0"
edition = "2021"
publish = false

[dependencies]
idna = "0.2"
url = "=2.2.2"
serde_json = "1"
trust-dns-client = "0.20"
reqwest = { version = "0.11", features = ["json"] }
tokio = { version = "1", features = ["rt-multi-thread", "net", "time"] }
log = "0.4"
stderrlog = "0.5"
structopt = "0.3"
