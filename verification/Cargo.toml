[package]
name = "cockroach_txn"
version = "0.1.0"
edition = "2021"
publish = false

[dependencies]
diesel = { version = "*", features = ["postgres", "r2d2"] }
dotenv = "*"
r2d2 = "*"
rocket = { version = "*", features = ["json"] }
serde = { version = "*", features = ["derive"] }
uuid = "*"
