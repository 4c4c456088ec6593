[package]
name = "agui_rs"
version = "0.1.0"
edition = "2021"
publish = false

[dependencies]
serde = { version = "1", features = ["derive"] }
serde_json = "1"
json-patch = "*"
futures = "0.3"
async-stream = "0.3"
async-trait = "0.1"
tokio = { version = "1", features = ["sync", "macros", "rt"] }
prost = "*"
prost-types = "*"
bytes = "1"
eventsource-stream = "*"
thiserror = "*"
