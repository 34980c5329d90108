[package]
name = "robius"
version = "0.1.0"
edition = "2021"
publish = false

[dependencies]
cfg-if = "1"
jni = "=0.21.1"
log = "0.4"
mime_guess = "=2.0.5"
retry = "=2.2.0"
rfd = { version = "=0.17.2", default-features = false, features = ["xdg-portal"] }
robius-android-env = "=0.2.0"
robius-directories = "=6.0.1"
zbus = "=5.18.0"
zbus_polkit = "=5.1.0"
