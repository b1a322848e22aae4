[package]
name = "libosu_py"
version = "0.1.0"
edition = "2021"
publish = false

[dependencies]
libosu = "=0.0.30"
pyo3 = "=0.30.1"
pyo3-stub-gen = "=0.23.2"
