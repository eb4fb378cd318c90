[package]
name = "pyembed_xtask"
version = "0.1.0"
edition = "2021"
publish = false

[dependencies]
anyhow = "=1.0.104"
pyo3-build-config = "=0.17.3"
python-packaging = "=0.16.0"
tugger-file-manifest = "=0.10.0"
pyembed = "=0.24.0"
