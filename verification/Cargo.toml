[package]
name = "smallest_enclosing_h3"
version = "0.1.0"
edition = "2021"
publish = false

[dependencies]
h3o = "*"
geo = "*"
geojson = "*"
serde_json = "*"
thiserror = "*"
