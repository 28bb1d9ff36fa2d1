[package]
name = "builder_rs"
version = "0.1.0"
edition = "2021"
publish = false

[dependencies]
regex = "*"
uuid = { version = "*", features = ["v4"] }
num_cpus = "*"
chrono = "*"
serde = { version = "*", features = ["derive"] }
serde_json = "*"
clap = { version = "*", features = ["derive"] }
git2 = "*"
flate2 = "*"
tar = "*"
zip = "*"
walkdir = "*"
which = "*"
nix = { version = "*", features = ["fs", "process", "signal", "resource"] }
xml-rs = "*"
reqwest = { version = "*", default-features = false, features = ["blocking", "multipart", "rustls-tls"] }
