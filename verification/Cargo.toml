[package]
name = "lance_rgw"
version = "0.1.0"
edition = "2021"
publish = false

[dependencies]
url = "2"
object_store = "0.12"
chrono = "0.4"
tokio = { version = "1", features = ["rt"] }
futures = "0.3"
bytes = "1"
async-trait = "0.1"
thiserror = "2"
