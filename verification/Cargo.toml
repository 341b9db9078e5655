[package]
name = "rozsda"
version = "0.1.0"
edition = "2021"
publish = false

[dependencies]
tiny-keccak = "1.5"
gtk = "0.9"
gdk = "0.13"
glib = "0.10"
pango = "0.9"
sourceview = "0.9"
