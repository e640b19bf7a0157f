[package]
name = "irondash_texture"
version = "0.1.0"
edition = "2021"
publish = false

[dependencies]
fastrand = "=1.9.0"
jni = "=0.21.1"
ndk-sys = "=0.6.0"
libc = "=0.2.191"
log = "=0.4.35"
android_logger = "=0.13.3"
simple_logger = "=4.3.3"
oslog = "=0.2.0"
