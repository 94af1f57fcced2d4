[package]
name = "food_delivery"
version = "0.1.0"
edition = "2021"
publish = false
