[package]
name = "user_registration"
version = "0.1.0"
edition = "2021"
publish = false

[dependencies]
argon2 = "=0.5.3"
rand = "=0.8.8"
uuid = { version = "=1.29.0", features = ["v4"] }
rocket = { version = "=0.5.2", features = ["json"] }
serde = { version = "=1.0.229", features = ["derive"] }
serde_json = "=1.0.154"
handlebars = { version = "=6.4.4", features = ["dir_source"] }
sea-orm = { version = "=2.0.4", default-features = false, features = ["macros", "with-uuid", "with-chrono", "sqlx-postgres", "runtime-tokio"] }
sea-orm-migration = { version = "=2.0.4", default-features = false, features = ["sqlx-postgres", "runtime-tokio"] }
async-trait = "=0.1.92"
rocket-validation = "=0.2.0"
validator = { version = "=0.16.1", features = ["derive"] }
