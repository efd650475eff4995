[package]
name = "file_identify"
version = "0.3.0"
edition = "2021"
publish = false

[dependencies]
smallvec = "=1.16.4"
thiserror = "=2.0.21"
clap = { version = "=4.6.7", features = ["derive"] }
