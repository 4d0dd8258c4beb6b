[package]
name = "note_player"
version = "0.1.0"
edition = "2021"
publish = false

[dependencies]
rodio = { version = "0.19", default-features = false }
