[package]
name = "oxc_ast_lower"
version = "0.1.0"
edition = "2021"
publish = false

[dependencies]
oxc_allocator = "=0.0.7"
oxc_ast = "=0.0.7"
oxc_span = "=0.0.7"
oxc_syntax = "=0.0.7"
