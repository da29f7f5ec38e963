[package]
name = "dir_nuke"
version = "0.1.0"
edition = "2021"
publish = false

[dependencies]
humansize = "*"
ratatui = "*"
crossterm = "*"
rayon = "*"
dialoguer = "*"
