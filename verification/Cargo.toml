[package]
name = "roguelike_engine"
version = "0.1.0"
edition = "2021"
publish = false

[dependencies]
num = "0.4"
rand = { version = "0.8", features = ["small_rng"] }
tcod = "0.15"
serde = { version = "1", features = ["derive"] }
gumdrop = "0.8"
log = "0.4"
simple-logging = "2"
logging_timer = "1"
sdl2 = "0.35"
