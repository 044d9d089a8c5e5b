[package]
name = "anonssh"
version = "0.1.0"
edition = "2021"
publish = false

[dependencies]
anyhow = "*"
clap = { version = "*", features = ["derive"] }
crossterm = "*"
rand = "*"
rpassword = "*"
russh = "*"
rustls = { version = "*", default-features = false, features = ["ring", "std"] }
tempfile = "*"
tokio = { version = "*", features = ["full"] }
tracing-subscriber = { version = "*", features = ["env-filter"] }

[dev-dependencies]
md5 = "*"
