[package]
name = "geoclue_fake"
version = "0.1.0"
edition = "2021"
publish = false

[dependencies]
dbus = "*"
dbus-crossroads = "*"
serde = { version = "*", features = ["derive"] }
toml = "*"
