[package]
name = "tiantan_acoustics"
version = "0.1.0"
edition = "2021"
publish = false

[dependencies]
anyhow = "1"
axum = "0.8"
chrono = { version = "0.4", features = ["serde"] }
metrics = "0.24"
metrics-exporter-prometheus = { version = "*", default-features = false }
nalgebra = "*"
num-complex = "0.4"
parking_lot = "0.12"
rand = "0.8"
rand_distr = "0.4"
rayon = "1"
rumqttc = { version = "*", default-features = false }
serde = { version = "1", features = ["derive"] }
serde_json = "1"
tokio = { version = "1", features = ["full"] }
tower-http = { version = "*", features = ["cors"] }
tracing = "0.1"
tracing-subscriber = "0.3"
uuid = { version = "1", features = ["v4", "serde"] }
