[package]
name = "uniffi_bindgen_go"
version = "0.1.0"
edition = "2021"
publish = false

[dependencies]
anyhow = "1"
askama = { version = "0.12", default-features = false, features = ["config"] }
camino = "1"
clap = { version = "4", features = ["derive", "cargo"] }
crossbeam = "0.8"
fs-err = "2"
heck = "0.5"
once_cell = "1"
serde = { version = "1", features = ["derive"] }
textwrap = "0.16"
thiserror = "1"
toml = "0.5"
uniffi_bindgen = "0.28"
uniffi_meta = "0.28"
