[package]
name = "hrekt"
version = "0.1.0"
edition = "2021"
publish = false

[dependencies]
regex = "*"
tokio = { version = "*", features = ["full"] }
reqwest = "*"
spmc = "*"
futures = "*"
clap = "*"
colored = "*"
headless_chrome = "*"
wappalyzer = "*"
port-selector = "*"
