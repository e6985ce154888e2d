[package]
name = "poem_vec_adapters"
version = "0.1.0"
edition = "2021"
publish = false

[dependencies]
poem-openapi = "*"
serde_json = "*"
arrayvec = "*"
heapless = "*"
smallvec = { version = "*", features = ["const_generics"] }
