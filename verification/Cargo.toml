[package]
name = "nextspeaker"
version = "0.1.0"
edition = "2021"
publish = false

[dependencies]
anyhow = "1"
clap = { version = "4", features = ["derive"] }
log = "0.4"
rand = "0.8"
rand_distr = "0.4"
regex = "1"
simple_logger = "4"
