[package]
name = "mindlaunch"
version = "0.1.0"
edition = "2021"
publish = false

[dependencies]
config = "*"
font-kit = "*"
minifb = "*"
nfd = "*"
parking_lot = "*"
raqote = "*"
serde = { version = "*", features = ["derive"] }
serde_json = "*"
ureq = "*"
