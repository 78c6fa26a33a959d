[package]
name = "team_registration"
version = "0.1.0"
edition = "2021"
publish = false

[dependencies]
rust-ini = "*"
rocket = { version = "0.5", features = ["json"] }
rocket_db_pools = { version = "0.2", features = ["sqlx_mysql"] }
rocket_dyn_templates = { version = "0.2", features = ["tera"] }
sqlx = { version = "0.7", default-features = false, features = ["chrono"] }
async-process = "*"
