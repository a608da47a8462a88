[package]
name = "b2cli"
version = "0.1.0"
edition = "2021"
publish = false

[dependencies]
sha1 = "=0.6.1"
backblaze-b2 = "=0.1.8"
clap = "=2.34.0"
hyper = "0.10"
serde = "1"
serde_json = "1"
