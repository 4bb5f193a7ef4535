[package]
name = "mesh_node"
version = "0.1.0"
edition = "2021"
publish = false

[dependencies]
embassy-sync = "=0.8.0"
heapless = "=0.8.0"
futures = "=0.3.34"
embassy-time = "=0.5.1"
rand_core = "=0.6.4"
drogue-rak811 = "*"
lsm303agr = "*"

[dev-dependencies]
critical-section = { version = "=1.2.0", features = ["std"] }
