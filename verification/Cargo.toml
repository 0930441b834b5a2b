[package]
name = "metaplex_cpi"
version = "0.1.0"
edition = "2021"
publish = false

[dependencies]
anchor-lang = "~0.24"
anchor-spl = "~0.24"
mpl-token-metadata = { version = "~1.2", features = ["no-entrypoint"] }
