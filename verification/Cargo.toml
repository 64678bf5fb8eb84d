[package]
name = "ext_trait_gen"
version = "0.1.0"
edition = "2021"
publish = false

[dependencies]
aws-credential-types = "*"
aws-smithy-types = "*"
tracing = "*"
