[package]
name = "gamble_sim"
version = "0.1.0"
edition = "2021"
publish = false

[dependencies]
rand = "0.8.4"
scottish_names = "0.2.2"
titlecase = "1.1.0"
