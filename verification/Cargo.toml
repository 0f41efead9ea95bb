[package]
name = "golem_cli"
version = "0.1.0"
edition = "2021"
publish = false

[dependencies]
async-trait = "0.1"
clap = { version = "4", features = ["derive"] }
golem-client = "<0.0.50"
golem-cloud-client = "<=0.0.58"
golem-gateway-client = "0.0.58"
serde = { version = "1", features = ["derive"] }
serde_json = "1"
serde_yaml = "0.9"
uuid = { version = "1", features = ["serde"] }
