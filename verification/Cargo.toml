[package]
name = "template_engines"
version = "0.1.0"
edition = "2021"
publish = false

[dependencies]
tera = "1"
handlebars = "3"
serde = "1"
serde_json = "1"
