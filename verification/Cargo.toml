[package]
name = "dungeon_heroes"
version = "0.1.0"
edition = "2021"
publish = false

[dependencies]
ambient_api = "0.3"
