[package]
name = "mdbx_browse"
version = "0.1.0"
edition = "2021"
publish = false

[dependencies]
libmdbx = "*"
anyhow = "*"
clap = { version = "*", features = ["derive"] }
cursive = { version = "*", default-features = false, features = ["crossterm-backend"] }
expanded-pathbuf = "*"

[dev-dependencies]
hex = "*"
tempfile = "*"
