[package]
name = "tokio_ncurses"
version = "0.1.0"
edition = "2021"
publish = false

[dependencies]
libc = "0.2"
ncurses = "*"
tokio = { version = "1", features = ["net", "sync"] }
