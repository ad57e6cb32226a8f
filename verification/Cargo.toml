[package]
name = "git-http-backend"
version = "0.1.0"
edition = "2021"
publish = false

[dependencies]
actix-files = "=0.6.10"
actix-web = "=4.18.1"
async-trait = "=0.1.92"
clap = { version = "=4.6.7", features = ["derive"] }
futures-util = "0.3"
http-auth-basic = "=0.3.7"
tokio = { version = "=1.54.1", features = ["rt-multi-thread", "macros", "process", "io-util"] }
tracing = "=0.1.44"
tracing-subscriber = "=0.3.23"
