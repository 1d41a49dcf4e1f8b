[package]
name = "estunnel"
version = "1.0.0"
edition = "2021"
publish = false

[dependencies]
crossbeam = "=0.8.5"
indicatif = "=0.17.11"
regex = "=1.13.1"
reqwest = { version = "=0.12.28", default-features = false, features = ["blocking", "json"] }
rpassword = "=7.5.4"
self_update = { version = "=1.3.1", default-features = false, features = ["reqwest", "github", "rustls"] }
serde_json = "=1.0.154"
structopt = "=0.3.26"
threadpool = "=1.8.1"
