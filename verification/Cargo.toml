[package]
name = "sysdiagram"
version = "0.1.0"
edition = "2021"
publish = false

[dependencies]
anyhow = "1"
argh = "*"
base64 = "*"
cfb = "*"
displaydoc = "0.2"
encoding_rs = "0.8"
mapr = "*"
ms-oforms = "*"
nom = "7"
thiserror = "1"
uuid = "1"
