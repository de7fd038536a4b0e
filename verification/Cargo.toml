[package]
name = "bookshelf"
version = "0.1.0"
edition = "2021"
publish = false

[dependencies]
anyhow = "1"
chrono = { version = "0.4", features = ["serde"] }
diesel = { version = "2", features = ["sqlite", "r2d2", "chrono", "returning_clauses_for_sqlite_3_35"] }
dotenv = "0.15"
iced = { version = "0.13", default-features = false, features = ["tiny-skia"] }
once_cell = "1"
r2d2 = "0.8"
serde = { version = "1", features = ["derive"] }
thiserror = "1"
