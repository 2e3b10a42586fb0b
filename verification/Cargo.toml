[package]
name = "surge"
version = "0.1.0"
edition = "2021"
publish = false

[dependencies]
anyhow = "*"
audioadapter-buffers = "*"
color-eyre = { version = "*", default-features = false }
cpal = "*"
crossterm = "*"
num = { version = "*", default-features = false, features = ["std"] }
oneshot = "*"
radiobrowser = { version = "*", features = ["blocking"] }
ratatui = { version = "*", default-features = false, features = ["crossterm"] }
reqwest = { version = "0.12", features = ["blocking"] }
ringbuf = "*"
rtrb = "*"
rubato = "*"
symphonia = "*"
