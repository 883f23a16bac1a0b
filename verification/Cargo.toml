[package]
name = "replicante"
version = "0.1.0"
edition = "2021"
publish = false

[dependencies]
bson = "*"
chrono = { version = "=0.4.45", default-features = false, features = ["clock", "std"] }
clap = "*"
crossbeam-channel = "*"
mongodb = { version = "*", features = ["sync"] }
prometheus = "*"
rand = "=0.7.3"
rdkafka = "*"
regex = "=1.13.1"
replicante_agent_models = "*"
reqwest = { version = "*", default-features = false, features = ["blocking", "json"] }
serde = { version = "1", features = ["derive"] }
serde_json = "1"
serde_yaml = "*"
slog = "*"
zookeeper = "*"
