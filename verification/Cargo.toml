[package]
name = "samba_printer_finder"
version = "0.1.0"
edition = "2021"
publish = false

[dependencies]
url = "2"
url-escape = "0.1"
libc = "0.2"
once_cell = "1"
oneshot = "0.1"
glib = "*"
gtk4 = "*"
