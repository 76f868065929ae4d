[package]
name = "rs_mqtt2jsons"
version = "0.1.0"
edition = "2021"
publish = false

[dependencies]
futures = "=0.3.34"
rumqttc = { version = "=0.25.1", default-features = false }
tokio = { version = "=1.54.1", features = ["macros", "rt-multi-thread"] }
