[package]
name = "flight_sql_client"
version = "0.1.0"
edition = "2021"
publish = false

[dependencies]
anyhow = "=1.0.104"
arrow-array = "=60.0.0"
arrow-cast = { version = "=60.0.0", features = ["prettyprint"] }
arrow-flight = { version = "=60.0.0", features = ["flight-sql"] }
arrow-schema = "=60.0.0"
chrono = "=0.4.45"
futures = "=0.3.34"
tokio = { version = "=1.53.2", features = ["macros", "rt-multi-thread"] }
tonic = { version = "=0.14.6", features = ["tls-ring"] }
