[package]
name = "acr_recorder"
version = "0.1.0"
edition = "2021"
publish = false

[dependencies]
serde = { version = "1", features = ["derive"] }
serde_json = "1"
toml = "*"
rkyv = { version = "0.7", features = ["validation"] }
chrono = "*"
ctrlc = "*"
dirs = "*"
rodio = "*"
rusqlite = "*"
shapefile = "*"
acc_shared_memory_rs = "*"
