[package]
name = "qtablepdf"
version = "0.1.0"
edition = "2021"
publish = false

[dependencies]
regex = "1"
csv = "1"
chrono = "0.4"
printpdf = "0.3"
itertools-num = "0.1"
num = "0.4"
