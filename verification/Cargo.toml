[package]
name = "remus8080"
version = "0.1.0"
edition = "2021"
publish = false

[dependencies]
structopt = "0.3"
termion = "1.5"
tui = "0.9"

[dev-dependencies]
rand = "0.8"
