[package]
name = "auth_core"
version = "0.1.0"
edition = "2021"
publish = false

[dependencies]
helpers = { version = "=0.6.1", features = ["hash", "jwt", "uuid", "time"] }
actix-web = "=4.18.1"
actix-cors = "=0.7.2"
async-trait = "=0.1.92"
envy = "=0.4.2"
lettre = "=0.11.23"
sea-orm = { version = "=1.1.20", features = ["sqlx-mysql", "runtime-tokio-rustls", "macros"] }
sea-orm-migration = { version = "=1.1.20", default-features = false }
serde = { version = "=1.0.229", features = ["derive"] }
serde_json = "=1.0.154"
tracing = "=0.1.44"
utoipa = { version = "=5.5.0", features = ["actix_extras"] }
utoipa-actix-web = "=0.1.2"
utoipa-swagger-ui = { version = "=9.0.2", features = ["actix-web", "vendored"] }
