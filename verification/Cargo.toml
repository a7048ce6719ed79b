[package]
name = "toasty_macros"
version = "0.1.0"
edition = "2021"
publish = false

[dependencies]
heck = "0.5"
pluralizer = "0.5"
proc-macro2 = "1"
quote = "1"
syn = { version = "2", features = ["full", "visit-mut", "extra-traits"] }
