[package]
name = "splinter_ws"
version = "0.1.0"
edition = "2021"
publish = false

[dependencies]
actix-http = { version = "=0.2.11", default-features = false }
awc = { version = "=0.2.8", default-features = false }
# actix-http 0.2 mixes the durations of chrono and time, which are one type up to this chrono.
chrono = "=0.4.19"
crossbeam-channel = "=0.3.9"
futures = "=0.1.31"
hyper = "=0.12.36"
log = "=0.4.35"
tokio = "=0.1.22"
