[package]
name = "bszet_davinci"
version = "0.1.0"
edition = "2021"
publish = false

[dependencies]
anyhow = "1"
axum = "0.6"
clap = { version = "4", features = ["derive", "env"] }
fantoccini = { version = "0.19", default-features = false, features = ["rustls-tls"] }
hyper = { version = "0.14", features = ["client", "http1", "tcp"] }
regex = "1"
reqwest = { version = "0.11", default-features = false, features = ["json", "multipart", "rustls-tls"] }
select = "0.6"
sentry = { version = "0.29", default-features = false, features = ["backtrace", "contexts", "panic", "reqwest", "rustls"] }
sentry-tracing = "0.29"
serde = { version = "1", features = ["derive"] }
serde_json = "1"
time = { version = "0.3", features = ["formatting", "macros", "parsing", "serde"] }
tokio = { version = "1", features = ["full"] }
tower-http = { version = "0.3", features = ["auth", "sensitive-headers", "trace"] }
tracing = "0.1"
tracing-subscriber = "0.3"
