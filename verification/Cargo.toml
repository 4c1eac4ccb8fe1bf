[package]
name = "brayton"
version = "0.1.0"
edition = "2021"
publish = false

[dependencies]
serde = { version = "=1.0.229", features = ["derive"] }
serde_json = "=1.0.154"
thiserror = "=2.0.21"
twine-core = "=0.6.0"
twine-models = { version = "=0.4.0", features = ["coolprop-dylib"] }
twine-solvers = "=0.6.0"
uom = "=0.36.0"

[dev-dependencies]
approx = "=0.5.1"
