[package]
name = "wasmi_majit"
version = "0.1.0"
edition = "2021"
publish = false

[dependencies]
majit-macros = "*"
majit-metainterp = "*"
