[package]
name = "chess_board"
version = "0.1.0"
edition = "2021"
publish = false

[dependencies]
pleco = "0.5"
gtk = "0.9"
gdk = "0.13"
cairo-rs = "0.9"
relm = "0.20"
relm-derive = "0.20"
nsvg = "0.5"
