[package]
name = "rig-dynclient"
version = "0.1.0"
edition = "2021"
publish = false

[dependencies]
rig-core = "=0.39.0"
kinded = "=0.5.1"
enum-assoc = "=1.4.1"
delegate = "=0.13.5"
disjoint_impls = "=1.4.5"
thiserror = "=2.0.21"
serde = { version = "=1.0.229", features = ["derive"] }
futures = "=0.3.34"
serde_json = "=1.0.154"
