[package]
name = "witness_generator_dal"
version = "0.1.0"
edition = "2021"
publish = false

[dependencies]
async-std = "1"
bincode = "1.3"
itertools = "0.10"
metrics = "0.20"
serde = "1"
sqlx = { version = "0.7", default-features = false, features = ["chrono", "postgres", "runtime-async-std"] }
