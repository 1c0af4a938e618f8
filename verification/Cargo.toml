[package]
name = "note_pen"
version = "0.1.0"
edition = "2021"
publish = false

[dependencies]
indexmap = "*"
uuid = { version = "*", features = ["v4"] }
midi_file = "*"
