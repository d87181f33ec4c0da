[package]
name = "sails_decl_core"
version = "0.1.0"
edition = "2021"
publish = false

[dependencies]
swc_common = { version = "=26.0.0", features = ["sourcemap", "tty-emitter"] }
swc_ecma_codegen = "=32.0.5"
swc_ecma_parser = "=46.1.2"
swc_ecmascript = { version = "=74.0.0", features = ["visit"] }
clap = { version = "=4.6.7", features = ["derive"] }
glob = "=0.3.4"
