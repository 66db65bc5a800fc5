[package]
name = "arxiv"
version = "0.3.0"
edition = "2021"
publish = false

[dependencies]
url = "=2.5.8"
jiff = "=0.2.38"
heck = "=0.5.0"
regex = "=1.13.1"
futures = "=0.3.34"
thirtyfour = "=0.38.1"
tokio = { version = "=1.54.1", features = ["full"] }
syn = { version = "=3.0.9", features = ["full"] }
quote = "=1.0.47"
proc-macro2 = "=1.0.107"
prettyplease = "=0.3.0"
