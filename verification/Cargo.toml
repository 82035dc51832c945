[package]
name = "rustpy_xlsxwriter"
version = "0.1.0"
edition = "2021"
publish = false

[dependencies]
indexmap = "=2.14.2"
pyo3 = "=0.23.5"
rust_xlsxwriter = { version = "=0.101.0", features = ["constant_memory"] }

[dev-dependencies]
zip = { version = "=9.1.0", default-features = false, features = ["deflate"] }
