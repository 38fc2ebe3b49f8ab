[package]
name = "cygnus"
version = "0.1.0"
edition = "2021"
publish = false

[dependencies]
aes-gcm = "0.10"
clap = { version = "*", features = ["derive"] }
directories = "*"
dirs = "*"
hostname = "*"
md5 = "0.7"
pnet = "*"
rand = "*"
rpassword = "*"
serde = { version = "*", features = ["derive"] }
tokio = { version = "*", features = ["rt", "rt-multi-thread", "net", "time", "fs", "io-util", "macros", "sync"] }
toml = "*"
tracing = "*"
tracing-subscriber = "*"
