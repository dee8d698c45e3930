[package]
name = "gluebuddy"
version = "0.1.0"
edition = "2021"
publish = false

[dependencies]
anyhow = "1"
base64 = "0.22"
clap = { version = "4", features = ["derive"] }
clap_complete = "4"
difference = "2"
env_logger = "*"
futures = "0.3"
gitlab = "*"
itertools = "*"
keycloak = "*"
log = "0.4"
reqwest = { version = "*", features = ["json"] }
serde = { version = "1", features = ["derive"] }
serde_json = "1"
serde_repr = "*"
strum = "*"
strum_macros = "*"
term = "*"
time = { version = "0.3", features = ["serde", "formatting", "parsing"] }
tokio = { version = "1", features = ["full"] }
