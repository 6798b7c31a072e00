[package]
name = "unix_terminal"
version = "0.1.0"
edition = "2021"
publish = false

[dependencies]
libc = "0.2"
parking_lot = "0.12"
rustix = { version = "1", features = ["pty", "stdio", "termios"] }
