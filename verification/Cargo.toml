[package]
name = "lsp_proxy"
version = "0.1.0"
edition = "2021"
publish = false

[dependencies]
serde_json = "1"
lsp-types = "*"
url = "2"
serde = { version = "1", features = ["derive"] }
actix-web = "4"
actix = "*"
actix-web-actors = "*"
actix-files = "*"
tokio = { version = "1", features = ["full"] }
structopt = "0.3"
dotenv = "0.15"
env_logger = "*"
mime = "*"
path-slash = "*"
walkdir = "2"
tempfile = "3"
