[package]
name = "supabase_micro"
version = "0.1.0"
edition = "2021"
publish = false

[dependencies]
heapless = "0.8"
serde = { version = "1", default-features = false, features = ["derive"] }
serde-json-core = "*"
reqwless = { version = "*", default-features = false }
embedded-nal-async = "*"
