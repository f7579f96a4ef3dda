[package]
name = "resticmgr"
version = "0.1.0"
edition = "2021"
publish = false

[dependencies]
serde_json = "1"
chrono = "0.4"
serde = { version = "1", features = ["derive"] }
lettre = "0.10"
scoped_threadpool = "0.1"
structopt = "0.3"
