[package]
name = "eng_dict"
version = "0.1.0"
edition = "2021"
publish = false

[dependencies]
rand = "=0.7.3"
serde_urlencoded = "=0.7.1"
serde = { version = "=1.0.229", features = ["derive"] }
serde_json = "=1.0.154"
iron = "=0.6.1"
router = "=0.6.0"
mount = "=0.4.0"
staticfile = "=0.5.0"
params = "=0.8.0"
handlebars-iron = "=0.29.0"
redis = "=0.9.1"
reqwest = { version = "=0.9.24", default-features = false, features = ["rustls-tls"] }
mongodb = "=0.3.10"
bson = "=0.12.3"
