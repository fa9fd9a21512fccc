[package]
name = "zallet_database"
version = "0.1.0"
edition = "2021"
publish = false

[dependencies]
semver = "=1.0.28"
rusqlite = { version = "=0.37.0", features = ["bundled", "time"] }
uuid = "=1.29.0"
time = "=0.3.55"
zcash_protocol = "=0.11.0"
zcash_client_sqlite = "=0.23.0"
schemerz = "=0.3.0"
schemerz-rusqlite = "=0.371.0"
rand = "=0.10.3"
