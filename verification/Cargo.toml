[package]
name = "miku_rpc"
version = "0.1.0"
edition = "2021"
publish = false

[dependencies]
arrayvec = "0.7"
epoll-rs = "*"
miniserde = "*"
miniserde-miku = "*"
mlua = { version = "*", features = ["lua54", "vendored", "serialize"] }
parking_lot = "*"
serde = { version = "1", features = ["derive"] }
serde_json = "1"
termios = "0.3"
