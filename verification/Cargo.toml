[package]
name = "actor_pipeline"
version = "0.1.0"
edition = "2021"
publish = false

[dependencies]
clap = { version = "=4.6.7", features = ["derive"] }
steady_state = { version = "=0.3.1", default-features = false, features = ["prometheus_metrics", "core_display", "core_affinity"] }
