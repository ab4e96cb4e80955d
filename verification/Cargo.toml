[package]
name = "rolling"
version = "0.1.0"
edition = "2021"
publish = false

[dependencies]
rand = "0.8"
crossbeam = "0.8"
num_cpus = "1"
structopt = "0.3"
reqwest = { version = "0.11", default-features = false, features = ["blocking", "json"] }
serde = "1"
serde_derive = "1"
serde_json = "1"
pyo3 = "0.20"
lpcg = "*"
