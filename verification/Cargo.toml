[package]
name = "envrender"
version = "0.1.0"
edition = "2021"
publish = false

[dependencies]
anyhow = "1"
dotenv = "0.15"
handlebars = "*"
structopt = "0.3"
