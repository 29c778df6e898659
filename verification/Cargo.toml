[package]
name = "densezk_sdk"
version = "0.1.0"
edition = "2021"
publish = false

[dependencies]
ark-bn254 = "=0.4.0"
ark-ec = "=0.4.2"
ark-ff = "=0.4.2"
ark-groth16 = "=0.4.0"
ark-relations = "=0.4.0"
ark-serialize = "=0.4.2"
ark-snark = "=0.4.0"
ark-std = { version = "=0.4.0", features = ["std", "getrandom"] }
light-poseidon = "=0.2.0"
serde = { version = "=1.0.229", features = ["derive"] }
serde_json = "=1.0.154"
reqwest = { version = "=0.11.27", default-features = false, features = ["blocking", "json"] }
tokio = { version = "=1.54.1", features = ["rt-multi-thread", "macros", "time", "sync"] }
clap = { version = "=4.6.7", features = ["derive"] }
