[package]
name = "wasi_runtime"
version = "0.1.0"
edition = "2021"
publish = false

[dependencies]
sha2 = "=0.10.9"
hex = "=0.4.3"
urlencoding = "=2.1.3"
term_size = "=0.3.2"
shellexpand = "=2.1.2"
weezl = "=0.1.12"
webc = "=3.0.1"
serde = { version = "=1.0.229", features = ["derive"] }
serde_json = "=1.0.154"
clap = { version = "=3.2.25", features = ["derive"] }
rand = "=0.8.8"
thiserror = "=1.0.69"
bytes = "=1.12.1"
tokio = { version = "=1.54.1", features = ["net", "sync", "time", "io-util", "rt"] }
reqwest = { version = "0.11", default-features = false, features = ["blocking"] }
termios = "0.3"
