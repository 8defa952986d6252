[package]
name = "clear_mind"
version = "0.1.0"
edition = "2021"
publish = false

[dependencies]
clap = { version = "4", features = ["derive"] }
color-eyre = "0.6"
humantime = "2"
itertools = "*"
rss = "2"
simple_moving_average = "*"
symphonia = { version = "0.5", features = ["mp3"] }
ureq = "2"
url = "2"
