[package]
name = "orchestrion_js"
version = "0.1.0"
edition = "2021"
publish = false

[dependencies]
nodejs-semver = "*"
sourcemap = "*"
swc_core = { version = "*", features = ["common", "ecma_ast", "ecma_parser", "ecma_visit", "ecma_quote", "ecma_codegen"] }
