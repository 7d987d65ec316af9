[package]
name = "email_sync"
version = "0.1.0"
edition = "2021"
publish = false

[dependencies]
anyhow = "1"
imap = "2"
maildir = "*"
native-tls = "0.2"
pico-args = "0.5"
rpassword = "5"
