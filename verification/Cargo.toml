[package]
name = "joy"
version = "0.1.0"
edition = "2021"
publish = false

[dependencies]
byteorder = "=1.5.0"
hidapi = "=1.5.0"
anyhow = "=1.0.104"
thiserror = "=1.0.69"
cgmath = "=0.18.0"
clap = { version = "=3.2.25", features = ["derive"] }

[dev-dependencies]
nom = "6"
