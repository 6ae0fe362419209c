[package]
name = "tlp_tool"
version = "0.1.0"
edition = "2021"
publish = false

[dependencies]
clap = { version = "*", features = ["derive"] }
prettytable-rs = "*"
rtlp-lib = "*"
