[package]
name = "ninterp"
version = "0.1.0"
edition = "2021"
publish = false

[dependencies]
ndarray = "*"
num-traits = "*"
serde = { version = "1", features = ["derive"] }
serde_json = "1"
serde-ndim = "*"
thiserror = "*"
uom = "*"

[dev-dependencies]
approx = "*"
