[package]
name = "jre_bootstrap"
version = "0.1.0"
edition = "2021"
publish = false

[dependencies]
dirs = "=7.0.0"
native-dialog = "=0.6.4"
open = "=5.4.5"
rand = "=0.8.8"
winreg = "=0.10.1"
