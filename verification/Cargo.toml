[package]
name = "mesh_nodes"
version = "0.1.0"
edition = "2021"
publish = false

[dependencies]
circular-buffer = "=1.2.1"
geoutils = "=0.5.1"
itertools = "=0.14.0"
meshtastic = { version = "=0.1.9", default-features = false }
pretty-duration = "=0.1.1"
ratatui = "=0.30.2"
