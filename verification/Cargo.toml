[package]
name = "session_store"
version = "0.1.0"
edition = "2021"
publish = false

[dependencies]
sha2 = "=0.9.9"
ipnetwork = "=0.18.0"
rand = "=0.8.8"
chrono = "=0.4.45"
diesel = { version = "=1.4.8", features = ["postgres", "chrono", "network-address"] }
