[package]
name = "callrx"
version = "0.1.0"
edition = "2021"
publish = false

[dependencies]
rusqlite = { version = "*", features = ["bundled"] }
owo-colors = "*"
anstream = "*"
clap = { version = "*", features = ["derive"] }
clap_complete = "*"
color-eyre = "*"
dirs = "*"
dotenvy = "*"
indicatif = "*"
minreq = { version = "*", features = ["json-using-serde", "https-rustls"] }
serde = { version = "*", features = ["derive"] }
serde_json = "*"
