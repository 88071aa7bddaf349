[package]
name = "grpc_fdw"
version = "0.1.0"
edition = "2021"
publish = false

[dependencies]
futures = "=0.3.34"
http = "=1.5.0"
prost = "=0.14.4"
prost-types = "=0.14.4"
serde_json = "=1.0.151"
tokio = { version = "=1.53.2", features = ["rt-multi-thread", "macros", "net", "time", "sync"] }
tokio-stream = "=0.1.19"
tonic = "=0.14.6"
tonic-prost = "=0.14.6"
