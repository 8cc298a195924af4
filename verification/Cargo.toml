[package]
name = "qsnap"
version = "0.1.0"
edition = "2021"
publish = false

[dependencies]
haikunator = "*"
clap = "2"
prettytable-rs = "0.8"
spinners = "1"
rusoto_core = { version = "0.42", default-features = false, features = ["rustls"] }
rusoto_ec2 = { version = "0.42", default-features = false, features = ["rustls"] }
