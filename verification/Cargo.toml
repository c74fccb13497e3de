[package]
name = "itx"
version = "0.1.0"
edition = "2021"
publish = false

[dependencies]
uuid = { version = "1", features = ["v4"] }
serde_json = "1"
serde = { version = "1", features = ["derive"] }
time = { version = "0.3", features = ["serde", "formatting", "parsing"] }
axum = { version = "0.8", default-features = false, features = ["json", "query", "tokio", "http1"] }
tokio = { version = "1", features = ["macros", "rt-multi-thread", "signal", "time", "sync"] }
tokio-util = "0.7"
futures-util = "0.3"
async-trait = "0.1"
thiserror = "2"
sqlx = { version = "0.8", default-features = false, features = ["runtime-tokio", "postgres", "mysql", "uuid", "time"] }
lapin = { version = "2", default-features = false }
aws-config = { version = "1", default-features = false, features = ["rt-tokio", "behavior-version-latest"] }
aws-sdk-sqs = { version = "1", default-features = false, features = ["rt-tokio", "behavior-version-latest"] }
serde_yaml = "0.9"
subst = "0.3"
envy = "0.4"
clap = { version = "4", features = ["derive"] }
tracing = "0.1"
tracing-subscriber = { version = "0.3", features = ["json"] }
