[package]
name = "render_pipeline_shaders"
version = "0.1.0"
edition = "2021"
publish = false

[dependencies]
libloading = "=0.8.9"
paste = "=1.0.15"
bindgen = "0.69"
cmake = "0.1"
