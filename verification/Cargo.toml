[package]
name = "wing"
version = "0.1.0"
edition = "2021"
publish = false

[dependencies]
color-eyre = "=0.6.5"
colored = "=3.1.1"
jiff = "=0.2.38"
reqwest = { version = "=0.12.28", features = ["blocking", "multipart"] }
strip-ansi-escapes = "=0.2.1"
thiserror = "=2.0.21"
