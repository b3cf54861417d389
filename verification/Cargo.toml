[package]
name = "glpk_api"
version = "0.1.0"
edition = "2021"
publish = false

[dependencies]
glpk-rust = "=0.1.15"
grb = "=3.0.1"
highs-sys = "=1.15.0"
actix-web = "=4.18.1"
dotenv = "=0.15.0"
serde = { version = "=1.0.229", features = ["derive"] }
serde_json = "=1.0.154"
reqwest = { version = "=0.12.28", default-features = false, features = ["json"] }
thiserror = "=1.0.69"
