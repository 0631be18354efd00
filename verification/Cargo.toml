[package]
name = "mako"
version = "0.1.0"
edition = "2021"
publish = false

[dependencies]
anyhow = "=1.0.104"
rayon = "=1.12.0"
serde_json = "=1.0.154"
swc_css_ast = "=26.0.0"
swc_css_minifier = "=26.0.0"
tracing = "=0.1.44"
