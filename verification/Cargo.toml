[package]
name = "garde"
version = "0.1.0"
edition = "2021"
publish = false

[dependencies]
card-validate = "*"
idna = "*"
phonenumber = "*"
regex = "*"
unicode-segmentation = "*"
url = "*"
