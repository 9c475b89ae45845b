[package]
name = "composer"
version = "0.1.0"
edition = "2021"
publish = false

[dependencies]
anyhow = "1"
thiserror = "1"

[dependencies.serde_json]
version = "1"
features = ["arbitrary_precision", "preserve_order"]

[dependencies.clap]
version = "4"
features = ["derive"]
