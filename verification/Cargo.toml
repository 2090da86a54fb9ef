[package]
name = "veloren"
version = "0.1.0"
edition = "2021"
publish = false

[dependencies]
fnv = "=1.0.7"
glsl-include = "=0.3.1"
dot_vox = "=5.2.0"
is_debug = "=1.1.0"
noise = "=0.5.1"
num-traits = "=0.2.19"
toml = "=0.4.10"
serde = { version = "=1.0.229", features = ["derive"] }
chrono = "=0.4.45"
indexmap = "2"
