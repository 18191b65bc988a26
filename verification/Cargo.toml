[package]
name = "confessions"
version = "0.1.0"
edition = "2021"
publish = false

[dependencies]
askama = "0.10"
diesel = { version = "1.4", features = ["postgres"] }
diesel_migrations = "1.4"
dotenv = "0.15"
rocket = { version = "=0.5.0-rc.1", features = ["json"] }
rocket_codegen = "=0.5.0-rc.1"
rocket_http = "=0.5.0-rc.1"
rocket_sync_db_pools = { version = "=0.1.0-rc.1", features = ["diesel_postgres_pool"] }
rocket_sync_db_pools_codegen = "=0.1.0-rc.1"
serde = { version = "1", features = ["derive"] }
thiserror = "1"
