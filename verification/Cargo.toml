[package]
name = "agent_registry"
version = "0.1.0"
edition = "2021"
publish = false

[dependencies]
uuid = { version = "1", features = ["v4"] }
serde_json = "1"
reqwest = { version = "0.12", features = ["blocking", "json"] }
supabase_rs = "*"
