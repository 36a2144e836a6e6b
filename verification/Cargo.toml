[package]
name = "hakotauri"
version = "0.3.0"
edition = "2021"
publish = false

[dependencies]
hakodb = { version = "=0.8.30", default-features = false, features = ["net-sync", "cloud-sync"] }
uuid = { version = "=1.29.0", features = ["v4"] }
serde = { version = "1", features = ["derive"] }
serde_json = "1"
tokio = { version = "1", features = ["sync"] }
jni = "0.21"
ndk-context = "0.1"
