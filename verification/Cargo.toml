[package]
name = "ray_tracer"
version = "0.1.0"
edition = "2021"
publish = false

[dependencies]
uuid = { version = "1", features = ["v4"] }
rand = "0.8"
rand_distr = "0.4"
rayon = "1"
fastrand = "2"
num_cpus = "1"
