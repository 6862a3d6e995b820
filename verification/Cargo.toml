[package]
name = "fsdk"
version = "0.1.0"
edition = "2021"
publish = false

[dependencies]
thiserror = "*"
libloading = "*"
fontdue = "*"
minifb = "*"
nokhwa = { version = "*", features = ["input-native"] }
tinyfiledialogs = "*"
