[package]
name = "wallselect"
version = "0.1.0"
edition = "2021"
publish = false

[dependencies]
gtk4 = { version = "*", features = ["v4_12"] }
gdk-pixbuf = "*"
libadwaita = "*"
gtk4-layer-shell = "*"
tokio = { version = "1", features = ["rt-multi-thread", "macros", "fs"] }
