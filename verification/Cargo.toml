[package]
name = "git_brws"
version = "0.1.0"
edition = "2021"
publish = false

[dependencies]
getopts = "*"
envy = "*"
serde = { version = "*", features = ["derive"] }
open = "*"
reqwest = { version = "*", default-features = false, features = ["blocking", "json"] }
