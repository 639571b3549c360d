[package]
name = "tomldb"
version = "0.1.0"
edition = "2021"
publish = false

[dependencies]
toml_edit = "0.22"
shlex = "1"
anyhow = "1"
clap = { version = "4", features = ["derive"] }
fs4 = { version = "*", features = ["tokio"] }
futures = "0.3"
tokio = { version = "1", features = ["fs", "io-util", "rt", "rt-multi-thread", "macros"] }
tokio-util = "0.7"
