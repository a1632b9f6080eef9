[package]
name = "rumcake"
version = "0.1.0"
edition = "2021"
publish = false

[dependencies]
tickv = "*"
postcard = { version = "*", features = ["experimental-derive"] }
serde = { version = "*", default-features = false, features = ["derive"] }
embedded-storage-async = "*"
embassy-sync = "*"
embassy-futures = "*"
defmt = "*"
