[package]
name = "wikidump"
version = "0.3.0"
edition = "2021"
publish = false

[dependencies]
bzip2 = "0.4"
parse_wiki_text = "0.1.5"
quick-xml = "0.22"
rayon = "1"
