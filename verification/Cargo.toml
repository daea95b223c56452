[package]
name = "infra_utils"
version = "0.1.0"
edition = "2021"
publish = false

[dependencies]
url = "=2.5.8"
robotstxt = "=0.3.0"
prost-reflect = { version = "=0.16.5", features = ["serde"] }
anyhow = "=1.0.104"
async-trait = "=0.1.92"
tokio = { version = "=1.54.1", features = ["full"] }
futures = "=0.3.34"
tonic = { version = "=0.14.9", features = ["tls-native-roots"] }
tonic-reflection = "=0.14.9"
tonic-web = "=0.14.9"
tower = "=0.5.3"
tower-http = { version = "=0.6.11", features = ["cors"] }
http = "=1.5.0"
opentelemetry = "=0.33.1"
tracing = "=0.1.44"
tracing-opentelemetry = "=0.34.0"
reqwest = { version = "=0.12.28", default-features = false, features = ["rustls-tls", "json"] }
reqwest-middleware = "=0.5.2"
reqwest-retry = "=0.9.1"
reqwest-tracing = "=0.7.1"
rss = "=2.1.2"
atom_syndication = "=0.12.10"
chrono = { version = "=0.4.45", features = ["serde"] }
regex = "=1.13.1"
serde = { version = "=1.0.229", features = ["derive"] }
serde_json = "=1.0.154"
thirtyfour = "=0.38.1"
deadpool = { version = "=0.13.1", features = ["managed", "rt_tokio_1"] }
readability = { version = "=0.3.0", default-features = false }
