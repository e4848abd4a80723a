[package]
name = "thumbnailify"
version = "0.1.0"
edition = "2021"
publish = false

[dependencies]
md-5 = "0.10"
url = "2"
png = "*"
image = { version = "0.25", default-features = false, features = ["bmp", "gif", "ico", "jpeg", "png", "pnm", "qoi", "tga", "tiff", "webp"] }
fast_image_resize = { version = "5", features = ["image"] }
rust-ini = "*"
shell-words = "1"
mime_guess = "2"
which = "*"
tempfile = "3"
dirs = "*"
thiserror = "*"
clap = { version = "4", features = ["derive"] }
