[package]
name = "solar_sailer"
version = "0.1.0"
edition = "2021"
publish = false

[dependencies]
color-eyre = "*"
glam = { version = "*", features = ["mint"] }
libmonado-rs = "*"
manifest-dir-macros = "*"
send_wrapper = "*"
stardust-xr-fusion = "*"
stardust-xr-molecules = "*"
tokio = { version = "*", features = ["rt", "macros", "signal"] }
