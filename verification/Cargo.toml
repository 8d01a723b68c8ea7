[package]
name = "render_core"
version = "0.1.0"
edition = "2021"
publish = false

[dependencies]
fermium = { version = "=22605.0.1", features = ["cargo_check"] }
gl46 = "=0.2.1"
glam = "=0.34.1"
thiserror = "=2.0.21"
