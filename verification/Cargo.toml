[package]
name = "cmd2zip"
version = "0.1.0"
edition = "2021"
publish = false

[dependencies]
clap = { version = "4", features = ["derive", "env"] }
rayon = "1"
regex = "1"
shlex = "1"
wild = "2"
zip = { version = "0.6", default-features = false, features = ["deflate"] }
