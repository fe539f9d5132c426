[package]
name = "tftplib"
version = "0.1.0"
edition = "2021"
publish = false

[dependencies]
clap = { version = "4", features = ["derive"] }
ctrlc = "3"
log = "0.4"
shellexpand = "3"
simple_logger = "*"
thiserror = "*"
tokio = { version = "1", features = ["rt-multi-thread", "macros"] }
tokio-util = "0.7"
