[package]
name = "barterm"
version = "0.1.0"
edition = "2021"
publish = false

[dependencies]
cocoa = "0.26"
global-hotkey = "=0.7.0"
serde_json = "=1.0.154"
