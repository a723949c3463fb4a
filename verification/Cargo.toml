[package]
name = "easy_process"
version = "0.2.1"
edition = "2021"
publish = false

[dependencies]
checked_command = "*"
cmdline_words_parser = "*"
derive_more = "0.99"
