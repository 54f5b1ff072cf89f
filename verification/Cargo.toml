[package]
name = "rts_core"
version = "0.1.0"
edition = "2021"
publish = false

[dependencies]
glob = "*"
rand = "0.8"
sdl2 = { version = "*", features = ["image"] }
stopwatch = "*"
strum = "*"
strum_macros = "*"
