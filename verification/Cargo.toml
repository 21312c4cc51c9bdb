[package]
name = "native"
version = "0.1.0"
edition = "2021"
publish = false

[dependencies]
native-dialog = { version = "=0.9.7", features = ["async"] }
serde = { version = "=1.0.229", features = ["derive"] }
rand = "=0.9.5"
gtk = "=0.18.2"
gdk = "=0.18.2"
glib = "=0.18.5"
gl = "=0.14.0"
libloading = "=0.8.9"
raw-window-handle = "=0.6.2"
dispatch2 = "=0.3.1"
objc2 = "=0.6.5"
block2 = "=0.6.2"
objc2-foundation = "=0.3.2"
objc2-app-kit = "=0.3.2"
objc2-ui-kit = "=0.3.2"
objc2-uniform-type-identifiers = "=0.3.2"
