[package]
name = "sales_queries"
version = "0.1.0"
edition = "2021"
publish = false

[dependencies]
axum = "=0.8.9"
chrono = { version = "=0.4.45", default-features = false, features = ["std", "serde"] }
diesel = { version = "=2.2.12", default-features = false, features = ["postgres_backend", "chrono", "32-column-tables"] }
diesel-async = { version = "=0.5.2", features = ["postgres", "bb8"] }
dotenvy = "=0.15.7"
# diesel-async 0.5.2 calls futures_util::try_join! without asking for the
# feature that holds it; this line switches the feature on.
futures-util = { version = "=0.3.34", features = ["async-await-macro"] }
mimalloc = "=0.1.52"
parking_lot = "=0.12.5"
serde = { version = "=1.0.229", features = ["derive"] }
socket2 = "=0.5.10"
sysinfo = "=0.33.1"
tokio = { version = "=1.54.1", features = ["full"] }
