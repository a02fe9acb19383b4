[package]
name = "ilockmvp"
version = "0.1.0"
edition = "2021"
publish = false

[dependencies]
ink = "4"
openbrush = { version = "*", features = ["psp22", "ownable"] }
parity-scale-codec = { version = "3", default-features = false, features = ["derive"] }
scale-info = { version = "2", default-features = false, features = ["derive"] }
bit-vec = "0.6"
