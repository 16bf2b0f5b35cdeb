[package]
name = "blog_pages"
version = "0.1.0"
edition = "2021"
publish = false

[dependencies]
brotli = "*"
zopfli = "*"
chrono = "0.4"
urlencoding = "*"
rss = "*"
rocket = "0.5"
