[package]
name = "rust_filestore"
version = "0.1.0"
edition = "2021"
publish = false

[dependencies]
getopts = "0.2"
tokio = { version = "1", features = ["rt-multi-thread", "macros", "net", "io-util", "fs"] }
