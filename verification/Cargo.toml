[package]
name = "imgpipe"
version = "0.1.0"
edition = "2021"
publish = false

[dependencies]
zune-image = "*"
zune-core = "*"
fast_image_resize = "*"
mozjpeg = "*"
jpegli = "*"
imagequant = "*"
rgb = "*"
clap = "*"
libavif = { version = "*", default-features = false }
