[package]
name = "typster"
version = "0.1.0"
edition = "2021"
publish = false

[dependencies]
chrono = "0.4"
flate2 = "1"
reqwest = { version = "0.12", default-features = false, features = ["blocking", "rustls-tls"] }
rustler = "*"
tar = "0.4"
typst = "0.13"
typst-kit = { version = "0.13", default-features = false, features = ["fonts"] }
typst-pdf = "0.13"
typst-render = "0.13"
typst-svg = "0.13"
