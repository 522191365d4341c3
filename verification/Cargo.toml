[package]
name = "wikipedia"
version = "0.1.0"
edition = "2021"
publish = false

[dependencies]
bzip2 = "=0.6.1"
html-escape = "=0.2.15"
parse_wiki_text = "=0.1.5"
quick-xml = "=0.37.5"
