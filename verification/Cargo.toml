[package]
name = "foreground_service"
version = "0.1.0"
edition = "2021"
publish = false

[dependencies]
flume = "=0.11.1"
jni = "=0.21.1"
jni-min-helper = "=0.3.4"
log = "=0.4.34"
anyhow = "=1.0.104"
android_logger = "=0.15.1"
slint = { version = "~1.8", default-features = false, features = ["std", "compat-1-2"] }
