[package]
name = "arcgis_rust"
version = "0.1.0"
edition = "2021"
publish = false

[dependencies]
geo = "=0.33.1"
i_overlay = "=4.5.2"
serde = { version = "=1.0.229", features = ["derive"] }
reqwest = { version = "=0.13.5", default-features = false }
tokio = { version = "=1.53.2", default-features = false, features = ["macros", "rt"] }
winit = "=0.28.7"
wasm-bindgen = "=0.2.129"
