[package]
name = "twitch_types"
version = "0.1.0"
edition = "2021"
publish = false

[dependencies]
aliri_braid = "0.1"
displaydoc = "0.2"
serde = { version = "1", features = ["derive"] }
serde_repr = "0.1"
thiserror = "1"
time = { version = "0.3", features = ["formatting", "parsing", "macros"] }
