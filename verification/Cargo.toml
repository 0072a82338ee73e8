[package]
name = "admin_listing"
version = "0.1.0"
edition = "2021"
publish = false

[dependencies]
actix-http = "3"
actix-identity = "*"
actix-session = { version = "*", features = ["cookie-session"] }
actix-web = { version = "4", default-features = false, features = ["macros", "cookies"] }
actix-web-flash-messages = { version = "*", features = ["cookies"] }
handlebars = "*"
magic-crypt = "*"
serde = { version = "1", features = ["derive"] }
serde_json = "1"
sqlx = { version = "*", default-features = false, features = ["postgres", "runtime-tokio"] }
validator = { version = "*", features = ["derive"] }
