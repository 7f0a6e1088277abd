[package]
name = "manx"
version = "0.4.0"
edition = "2021"
publish = false

[dependencies]
ansi_term = "0.12"
anyhow = "1"
async-channel = "1"
async-executor = "0.1"
async-io = "0.1"
async-native-tls = "0.3"
async-tungstenite = "0.8"
blocking = "0.5"
clap = "2.33"
futures = "0.3"
futures-lite = "0.1"
futures-util = "0.3"
linefeed = "0.6"
multitask = "0.2"
native-tls = "0.2"
once_cell = "1"
tungstenite = "0.11"
url = "2"
