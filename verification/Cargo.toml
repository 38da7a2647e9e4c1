[package]
name = "admission"
version = "0.1.0"
edition = "2021"
publish = false

[dependencies]
blake3 = "1"
bytes = "1"
dotenv = "0.15"
lazy-regex = "3"
minio-rsc = "0.2"
r2d2_redis = "0.14"
rocket = { version = "0.5", features = ["json"] }
rocket_cors = "0.6"
rocket_dyn_templates = { version = "0.2", features = ["tera"] }
serde = { version = "1", features = ["derive"] }
