[package]
name = "tauri_plugin_graphql"
version = "0.1.0"
edition = "2021"
publish = false

[dependencies]
async-graphql = { version = "5", default-features = false, features = ["dynamic-schema"] }
serde = { version = "1", features = ["derive"] }
serde_json = "1"
