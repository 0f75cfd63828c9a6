[package]
name = "notalawyer"
version = "0.3.0"
edition = "2021"
publish = false

[dependencies]
camino = "=1.2.6"
cargo-about = { version = "=0.9.3", default-features = false }
clap = { version = "=4.6.7", features = ["derive"] }
codespan-reporting = "=0.13.1"
krates = "=0.21.3"
toml-span = "=0.7.2"
rustls = { version = "=0.23.46", default-features = false, features = ["ring", "std"] }
ureq = { version = "=3.5.1", default-features = false, features = ["platform-verifier", "rustls-no-provider"] }
