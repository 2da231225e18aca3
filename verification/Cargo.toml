[package]
name = "timetable_crawler"
version = "0.1.0"
edition = "2021"
publish = false

[dependencies]
aho-corasick = "*"
dotenvy = "*"
email_address = "*"
futures = "*"
indicatif = "*"
regex = "*"
reqwest = { version = "*", default-features = false }
scraper = "*"
sqlx = { version = "*", features = ["runtime-tokio", "postgres"] }
tokio = { version = "*", features = ["rt-multi-thread", "macros", "sync", "time"] }
url = "*"
