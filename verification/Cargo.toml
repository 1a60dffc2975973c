[package]
name = "windows_fonts"
version = "0.1.0"
edition = "2021"
publish = false

[dependencies]
anyhow = "1"
pyo3 = { version = "0.18", features = ["anyhow"] }
thiserror = "1"
windows = { version = "0.44", features = ["Win32_Foundation", "Win32_Globalization", "Win32_Graphics_DirectWrite"] }
