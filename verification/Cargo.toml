[package]
name = "ws_pool"
version = "0.1.0"
edition = "2021"
publish = false

[dependencies]
tokio = { version = "1", features = ["sync", "rt", "macros", "net", "time"] }
url = "2"
fastwebsockets = { version = "*", features = ["upgrade"] }
hyper = { version = "1", features = ["client", "http1"] }
hyper-util = { version = "*", features = ["tokio"] }
http = "1"
http-body-util = "*"
tokio-rustls = "*"
webpki-roots = "*"
tracing = "0.1"
thiserror = "*"
