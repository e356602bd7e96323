[package]
name = "feeless"
version = "0.1.0"
edition = "2021"
publish = false

[dependencies]
sp-runtime = { version = "*", default-features = false }
frame-support = { version = "*", default-features = false }
frame-system = { version = "*", default-features = false }
pallet-balances = { version = "*", default-features = false }
parity-scale-codec = { version = "*", default-features = false, features = ["derive", "max-encoded-len"] }
scale-info = { version = "*", default-features = false, features = ["derive"] }
