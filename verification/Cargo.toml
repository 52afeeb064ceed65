[package]
name = "rimsdb_scheme_submission"
version = "0.1.0"
edition = "2021"
publish = false

[dependencies]
serde_json = { version = "=1.0.154", features = ["preserve_order", "float_roundtrip"] }
serde = { version = "=1.0.229", features = ["derive"] }
egui = { version = "=0.27.2", default-features = false }
eframe = { version = "=0.27.2", default-features = false, features = ["glow", "persistence"] }
futures = { version = "=0.3.34", default-features = false, features = ["executor"] }
strum = { version = "=0.26.3", features = ["derive"] }
strum_macros = "=0.26.4"
rfd = { version = "=0.14.1", default-features = false, features = ["xdg-portal", "tokio"] }
wasm-bindgen-futures = "=0.4.79"
