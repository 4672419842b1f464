[package]
name = "bt"
version = "0.1.0"
edition = "2021"
publish = false

[dependencies]
clap = { version = "=4.6.7", features = ["derive"] }
tabled = { version = "=0.22.0", default-features = false, features = ["std"] }
zbus = "=5.19.0"
