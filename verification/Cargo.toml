[package]
name = "kafka_topic_operator"
version = "0.1.0"
edition = "2021"
publish = false

[dependencies]
dotenv = "=0.15.0"
env_logger = "=0.11.11"
futures = "=0.3.34"
k8s-openapi = { version = "=0.28.0", features = ["latest"] }
kube = { version = "=4.2.0", features = ["runtime", "derive"] }
log = "=0.4.34"
rdkafka = "=0.39.0"
schemars = "=1.2.2"
serde = { version = "=1.0.229", features = ["derive"] }
serde_json = "=1.0.151"
thiserror = "=2.0.21"
tokio = { version = "=1.53.2", features = ["macros", "rt-multi-thread"] }
