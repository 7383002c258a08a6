[package]
name = "rterm"
version = "0.1.0"
edition = "2021"
publish = false

[dependencies]
gdk = "=0.12.1"
gio = "=0.8.1"
glib = "=0.9.3"
gtk = "=0.8.1"
relm = "=0.19.0"
relm-derive = "=0.19.1"
vte-rs = "=0.3.0"
