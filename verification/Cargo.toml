[package]
name = "photoscan"
version = "0.1.0"
edition = "2021"
publish = false

[dependencies]
anyhow = "1"
chrono = { version = "0.4", default-features = false, features = ["std"] }
globwalk = "0.8"
iced_graphics = "0.2"
iced_native = "0.4"
image = { version = "0.23", default-features = false, features = ["jpeg", "png"] }
kamadak-exif = "0.5"
path-slash = "0.1"
rayon = "1"
regex = "1"
rusqlite = { version = "0.25", features = ["bundled", "chrono"] }
serde = { version = "1", features = ["derive"] }
serde_json = "1"
sha1 = "0.10"
thiserror = "1"
