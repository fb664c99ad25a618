[package]
name = "hank"
version = "0.1.0"
edition = "2021"
publish = false

[dependencies]
calc = { version = "=0.2.1", default-features = false }
curl = { version = "=0.4.51", default-features = false }
futures-util = { version = "=0.3.34", default-features = false, features = ["alloc"] }
irc = { version = "=1.1.0", default-features = false, features = ["ctcp", "tls-rust"] }
lalrpop-util = { version = "=0.19.12", features = ["lexer"] }
markov = "=1.1.0"
rand = "=0.4.6"
regex = "=1.13.1"
regex-syntax = "=0.8.11"
reqwest = { version = "=0.11.27", default-features = false, features = ["rustls-tls"] }
separator = "=0.4.1"
serde_json = "=1.0.154"
time = "=0.1.45"
tokio = { version = "=1.54.1", features = ["rt", "net", "time", "sync"] }
url = "=1.7.2"
